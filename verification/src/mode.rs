//! Runtime mode selection.
//!
//! On x86 hardware the boot layer is native EFI; on Apple Silicon it switches
//! to the sandbox mode, which goes through Apple's Virtualization framework.
use vstd::prelude::*;

use crate::guest::{HostBackend, VirtualizationBackend};

verus! {

#[derive(Debug, Clone, Copy, PartialEq, Eq, Structural)]
pub enum AplsMode {
    NativeEfiX86,
    AppleSiliconSandbox,
}

impl AplsMode {
    pub fn as_str(&self) -> (name: &'static str)
        ensures
            name@ == match self {
                AplsMode::NativeEfiX86 => "native-efi-x86"@,
                AplsMode::AppleSiliconSandbox => "apls-sandbox"@,
            },
    {
        match self {
            AplsMode::NativeEfiX86 => "native-efi-x86",
            AplsMode::AppleSiliconSandbox => "apls-sandbox",
        }
    }
}

#[derive(Debug, Clone)]
pub struct BootEnv {
    pub mode: AplsMode,
    pub arch: &'static str,
    pub virtualization_backend_available: bool,
}

/// The mode of a build, by whether its target is Apple Silicon.
pub open spec fn mode_of(apple_silicon: bool) -> AplsMode {
    if apple_silicon {
        AplsMode::AppleSiliconSandbox
    } else {
        AplsMode::NativeEfiX86
    }
}

/// Detects the mode from the build target. Whether the hardware has a working
/// Virtualization framework is for `probe` to say.
pub fn detect(apple_silicon: bool) -> (mode: AplsMode)
    ensures
        mode == mode_of(apple_silicon),
{
    if apple_silicon {
        AplsMode::AppleSiliconSandbox
    } else {
        AplsMode::NativeEfiX86
    }
}

/// Describes the runtime environment: the mode, the target architecture, and
/// whether the virtualization backend reports itself available. Outside the
/// sandbox mode no backend counts.
pub fn probe<F>(apple_silicon: bool, arch: &'static str, backend: &HostBackend<F>) -> (env: BootEnv)
    ensures
        env.mode == mode_of(apple_silicon),
        env.arch@ == arch@,
        env.virtualization_backend_available == (apple_silicon && backend is Apple),
{
    let mode: AplsMode = detect(apple_silicon);
    let available: bool = match mode {
        AplsMode::NativeEfiX86 => false,
        AplsMode::AppleSiliconSandbox => backend.available(),
    };
    BootEnv { mode, arch, virtualization_backend_available: available }
}

} // verus!
