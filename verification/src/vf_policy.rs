//! Product policy of the virtualization security kernel.
//!
//! The product policy is fixed at `AppleIntelOnly`: no runtime switch permits
//! a general PC or an outer VM, and none downgrades security where VMX, EPT,
//! DMA remapping or interrupt remapping is absent: a configuration that turns
//! one of these requirements off is rejected. One that leaves a requirement
//! unset neither turns it off nor states it. Boot is never authorized, as
//! there is neither a signature verifier nor a hardware executor; nothing that
//! a configuration says can change that.
use vstd::prelude::*;

use crate::digest;
use crate::text;
use crate::vf_abi::VfError;

verus! {

#[derive(Debug)]
pub enum PolicyError {
    /// The property list could not be read, for the reason given.
    Plist(String),
    /// Duplicate, unknown or missing configuration key.
    UnknownKey,
    PlatformPolicy(String),
    WeakenedSecurity(&'static str),
    GuestProfile(String),
    Vf(VfError),
}

impl From<VfError> for PolicyError {
    fn from(error: VfError) -> (wrapped: Self) {
        PolicyError::Vf(error)
    }
}

impl vstd::std_specs::convert::FromSpecImpl<VfError> for PolicyError {
    open spec fn obeys_from_spec() -> bool {
        true
    }

    open spec fn from_spec(error: VfError) -> Self {
        PolicyError::Vf(error)
    }
}

#[derive(Debug, Clone, Copy, PartialEq, Eq, Structural)]
pub enum PlatformPolicy {
    AppleIntelOnly,
}

impl PlatformPolicy {
    pub fn as_str(&self) -> (name: &'static str)
        ensures
            name@ == "AppleIntelOnly"@,
    {
        match self {
            PlatformPolicy::AppleIntelOnly => "AppleIntelOnly",
        }
    }
}

#[derive(Debug, Clone, Copy, PartialEq, Eq, Structural)]
pub enum GuestProfile {
    MacOS26Tahoe,
    MacOS27GoldenGate,
}

/// The registered name of a guest profile.
pub open spec fn profile_name(profile: GuestProfile) -> Seq<char> {
    match profile {
        GuestProfile::MacOS26Tahoe => "macos26-tahoe"@,
        GuestProfile::MacOS27GoldenGate => "macos27-golden-gate"@,
    }
}

impl GuestProfile {
    pub fn as_str(&self) -> (name: &'static str)
        ensures
            name@ == profile_name(*self),
    {
        match self {
            GuestProfile::MacOS26Tahoe => "macos26-tahoe",
            GuestProfile::MacOS27GoldenGate => "macos27-golden-gate",
        }
    }
}

#[derive(Debug, Clone, Copy, PartialEq, Eq, Structural)]
pub enum DenialReason {
    NoSignatureVerifier,
    NoHardwareExecutor,
    UnknownConfig,
}

/// A reason in words.
pub open spec fn denial_text(reason: DenialReason) -> Seq<char> {
    match reason {
        DenialReason::NoSignatureVerifier => "no signature verifier"@,
        DenialReason::NoHardwareExecutor => "no hardware executor"@,
        DenialReason::UnknownConfig => "unknown config"@,
    }
}

impl DenialReason {
    pub fn as_str(&self) -> (words: &'static str)
        ensures
            words@ == denial_text(*self),
    {
        match self {
            DenialReason::NoSignatureVerifier => "no signature verifier",
            DenialReason::NoHardwareExecutor => "no hardware executor",
            DenialReason::UnknownConfig => "unknown config",
        }
    }
}

/// Normalized policy. Always denies boot.
#[derive(Debug, Clone)]
pub struct VskPolicy {
    pub platform: PlatformPolicy,
    pub guest_profile: Option<GuestProfile>,
    pub require_vmx: bool,
    pub require_ept: bool,
    pub require_iommu: bool,
    pub require_interrupt_remapping: bool,
    pub guest_mib: u64,
    pub host_reserve_mib: u64,
    pub jit_cache_mib: u64,
    pub config_sha256: [u8; 32],
    pub boot_authorized: bool,
    pub denial_reason: DenialReason,
}

/// The processor section of a configuration.
#[derive(Debug, Clone, PartialEq, Eq)]
pub struct CpuConfig {
    pub minimum_isa: Option<String>,
    pub codegen: Option<String>,
    pub hybrid_scheduling: Option<String>,
    pub vcpus: Option<String>,
    pub service_logical_cpus: Option<u32>,
    pub smt_policy: Option<String>,
}

/// The security section of a configuration.
#[derive(Debug, Clone, PartialEq, Eq)]
pub struct SecurityConfig {
    pub vmx_required: Option<bool>,
    pub ept_required: Option<bool>,
    pub iommu_required: Option<bool>,
    pub interrupt_remapping_required: Option<bool>,
    pub dma_bypass: Option<bool>,
}

/// The memory section of a configuration.
#[derive(Debug, Clone, PartialEq, Eq)]
pub struct MemoryConfig {
    pub guest_mib: Option<u64>,
    pub host_reserve_mib: Option<u64>,
    pub jit_cache_mib: Option<u64>,
}

/// The graphics section of a configuration.
#[derive(Debug, Clone, PartialEq, Eq)]
pub struct GraphicsConfig {
    pub device: Option<String>,
    pub driver_policy: Option<String>,
    pub minimum_profile: Option<String>,
    pub on_unsupported: Option<String>,
}

/// One storage device of a configuration.
#[derive(Debug, Clone, PartialEq, Eq)]
pub struct StorageDevice {
    pub id: Option<String>,
    pub backend: Option<String>,
    pub device_serial: Option<String>,
    pub disk_guid: Option<String>,
    pub partition_guid: Option<String>,
    pub sector_bytes: Option<u32>,
    pub read_only: Option<bool>,
}

/// The guest section of a configuration.
#[derive(Debug, Clone, PartialEq, Eq)]
pub struct GuestConfig {
    pub profile_id: Option<String>,
    pub require_metal: Option<bool>,
}

/// A configuration as it was read, before it is judged.
#[derive(Debug, Clone, PartialEq, Eq)]
pub struct RawPolicy {
    pub schema_version: Option<i64>,
    pub platform_policy: Option<String>,
    pub cpu: Option<CpuConfig>,
    pub security: Option<SecurityConfig>,
    pub memory: Option<MemoryConfig>,
    pub storage: Option<Vec<StorageDevice>>,
    pub graphics: Option<GraphicsConfig>,
    pub guest: Option<GuestConfig>,
}

/// Why a configuration is refused.
pub enum PolicyRefusal {
    Plist(Seq<char>),
    UnknownKey,
    PlatformPolicy(Seq<char>),
    WeakenedSecurity(Seq<char>),
    GuestProfile(Seq<char>),
    Vf(VfError),
}

/// What a configuration comes to.
pub struct PolicyTerms {
    pub platform: PlatformPolicy,
    pub guest_profile: Option<GuestProfile>,
    pub require_vmx: bool,
    pub require_ept: bool,
    pub require_iommu: bool,
    pub require_interrupt_remapping: bool,
    pub guest_mib: u64,
    pub host_reserve_mib: u64,
    pub jit_cache_mib: u64,
}

/// The text of an optional setting.
pub open spec fn setting(value: Option<String>) -> Option<Seq<char>> {
    match value {
        Some(text) => Some(text@),
        None => None,
    }
}

/// Why the platform setting is refused, if it is.
pub open spec fn platform_refusal(raw: RawPolicy) -> Option<PolicyRefusal> {
    match setting(raw.platform_policy) {
        Some(name) => if name == "AppleIntelOnly"@ {
            None
        } else {
            Some(PolicyRefusal::PlatformPolicy(name))
        },
        None => None,
    }
}

/// Whether an instruction set is the product floor, SSE4.2, by either name
/// and in any case.
pub open spec fn isa_admitted(isa: Seq<char>) -> bool {
    ||| text::ascii_lower_text(isa) == text::ascii_lower_text("sse4.2"@)
    ||| text::ascii_lower_text(isa) == text::ascii_lower_text("sse42"@)
}

/// Why the processor section is refused, if it is.
pub open spec fn cpu_refusal(raw: RawPolicy) -> Option<PolicyRefusal> {
    match raw.cpu {
        None => Some(PolicyRefusal::UnknownKey),
        Some(cpu) => match setting(cpu.minimum_isa) {
            Some(isa) => if isa_admitted(isa) {
                None
            } else {
                Some(PolicyRefusal::GuestProfile(isa))
            },
            None => None,
        },
    }
}

/// The security setting that weakens the product, if one does: a DMA bypass
/// that is turned on, or a requirement that is turned off. A setting that is
/// not given weakens nothing.
pub open spec fn weakened_setting(security: SecurityConfig) -> Option<&'static str> {
    if security.dma_bypass == Some(true) {
        Some("DMA bypass enabled")
    } else if security.vmx_required == Some(false) {
        Some("VMX requirement disabled")
    } else if security.ept_required == Some(false) {
        Some("EPT requirement disabled")
    } else if security.iommu_required == Some(false) {
        Some("IOMMU requirement disabled")
    } else if security.interrupt_remapping_required == Some(false) {
        Some("interrupt remapping requirement disabled")
    } else {
        None
    }
}

/// Why the security section is refused, if it is.
pub open spec fn security_refusal(raw: RawPolicy) -> Option<PolicyRefusal> {
    match raw.security {
        None => Some(PolicyRefusal::UnknownKey),
        Some(security) => match weakened_setting(security) {
            Some(setting) => Some(PolicyRefusal::WeakenedSecurity(setting@)),
            None => None,
        },
    }
}

/// A size in the memory section: zero where it is not given.
pub open spec fn given_mib(size: Option<u64>) -> u64 {
    match size {
        Some(mib) => mib,
        None => 0,
    }
}

/// Why the memory section is refused, if it is.
pub open spec fn memory_refusal(raw: RawPolicy) -> Option<PolicyRefusal> {
    match raw.memory {
        None => Some(PolicyRefusal::UnknownKey),
        Some(memory) => if given_mib(memory.guest_mib) == 0 || given_mib(memory.host_reserve_mib)
            == 0 || given_mib(memory.jit_cache_mib) == 0 {
            Some(PolicyRefusal::UnknownKey)
        } else {
            None
        },
    }
}

/// The guest profile that a configuration names: none where it names none.
pub open spec fn chosen_profile(raw: RawPolicy) -> Result<Option<GuestProfile>, PolicyRefusal> {
    match raw.guest {
        None => Err(PolicyRefusal::UnknownKey),
        Some(guest) => match setting(guest.profile_id) {
            None => Ok(None),
            Some(name) => if name.len() == 0 {
                Ok(None)
            } else if name == profile_name(GuestProfile::MacOS26Tahoe) {
                Ok(Some(GuestProfile::MacOS26Tahoe))
            } else if name == profile_name(GuestProfile::MacOS27GoldenGate) {
                Ok(Some(GuestProfile::MacOS27GoldenGate))
            } else {
                Err(PolicyRefusal::GuestProfile(name))
            },
        },
    }
}

/// The first of two refusals that is there.
pub open spec fn first_refusal(
    first: Option<PolicyRefusal>,
    second: Option<PolicyRefusal>,
) -> Option<PolicyRefusal> {
    match first {
        Some(_) => first,
        None => second,
    }
}

/// What a configuration comes to, or why it is refused.
pub open spec fn normalized(raw: RawPolicy) -> Result<PolicyTerms, PolicyRefusal> {
    match first_refusal(
        first_refusal(platform_refusal(raw), cpu_refusal(raw)),
        first_refusal(security_refusal(raw), memory_refusal(raw)),
    ) {
        Some(refusal) => Err(refusal),
        None => match chosen_profile(raw) {
            Err(refusal) => Err(refusal),
            Ok(guest_profile) => Ok(
                PolicyTerms {
                    platform: PlatformPolicy::AppleIntelOnly,
                    guest_profile,
                    require_vmx: raw.security->Some_0.vmx_required == Some(true),
                    require_ept: raw.security->Some_0.ept_required == Some(true),
                    require_iommu: raw.security->Some_0.iommu_required == Some(true),
                    require_interrupt_remapping:
                        raw.security->Some_0.interrupt_remapping_required == Some(true),
                    guest_mib: given_mib(raw.memory->Some_0.guest_mib),
                    host_reserve_mib: given_mib(raw.memory->Some_0.host_reserve_mib),
                    jit_cache_mib: given_mib(raw.memory->Some_0.jit_cache_mib),
                },
            ),
        },
    }
}

/// What a configuration that was read, or could not be, comes to.
pub open spec fn policy_verdict(parsed: Result<RawPolicy, String>) -> Result<
    PolicyTerms,
    PolicyRefusal,
> {
    match parsed {
        Err(reason) => Err(PolicyRefusal::Plist(reason@)),
        Ok(raw) => normalized(raw),
    }
}

/// The content of an error.
pub open spec fn refusal_of(error: PolicyError) -> PolicyRefusal {
    match error {
        PolicyError::Plist(reason) => PolicyRefusal::Plist(reason@),
        PolicyError::UnknownKey => PolicyRefusal::UnknownKey,
        PolicyError::PlatformPolicy(name) => PolicyRefusal::PlatformPolicy(name@),
        PolicyError::WeakenedSecurity(what) => PolicyRefusal::WeakenedSecurity(what@),
        PolicyError::GuestProfile(name) => PolicyRefusal::GuestProfile(name@),
        PolicyError::Vf(error) => PolicyRefusal::Vf(error),
    }
}

/// The terms of a policy.
pub open spec fn terms_of(policy: VskPolicy) -> PolicyTerms {
    PolicyTerms {
        platform: policy.platform,
        guest_profile: policy.guest_profile,
        require_vmx: policy.require_vmx,
        require_ept: policy.require_ept,
        require_iommu: policy.require_iommu,
        require_interrupt_remapping: policy.require_interrupt_remapping,
        guest_mib: policy.guest_mib,
        host_reserve_mib: policy.host_reserve_mib,
        jit_cache_mib: policy.jit_cache_mib,
    }
}

/// The verdict of a policy on booting, with its reason in words.
pub open spec fn denial(policy: VskPolicy) -> (bool, Seq<char>) {
    (false, denial_text(policy.denial_reason))
}

/// Whether `policy` is what the configuration in `bytes`, which reads as
/// `parsed`, is accepted as.
pub open spec fn accepted_as(
    policy: VskPolicy,
    bytes: Seq<u8>,
    parsed: Result<RawPolicy, String>,
) -> bool {
    &&& policy_verdict(parsed) == Ok::<PolicyTerms, PolicyRefusal>(terms_of(policy))
    &&& policy.config_sha256@ == digest::sha256(bytes)
    &&& !policy.boot_authorized
    &&& policy.denial_reason == DenialReason::NoSignatureVerifier
}

/// Whether an optional setting is turned on; one that is not given is not.
fn asked(value: Option<bool>) -> (yes: bool)
    ensures
        yes == (value == Some(true)),
{
    match value {
        Some(yes) => yes,
        None => false,
    }
}

/// Whether an optional setting is turned off; one that is not given is not.
fn disabled(value: Option<bool>) -> (yes: bool)
    ensures
        yes == (value == Some(false)),
{
    match value {
        Some(on) => !on,
        None => false,
    }
}

impl SecurityConfig {
    /// The setting that weakens the product, if one does.
    fn weakening(&self) -> (setting: Option<&'static str>)
        ensures
            setting == weakened_setting(*self),
    {
        if asked(self.dma_bypass) {
            Some("DMA bypass enabled")
        } else if disabled(self.vmx_required) {
            Some("VMX requirement disabled")
        } else if disabled(self.ept_required) {
            Some("EPT requirement disabled")
        } else if disabled(self.iommu_required) {
            Some("IOMMU requirement disabled")
        } else if disabled(self.interrupt_remapping_required) {
            Some("interrupt remapping requirement disabled")
        } else {
            None
        }
    }
}

/// A size, zero where it is not given.
fn mib(size: Option<u64>) -> (mib: u64)
    ensures
        mib == given_mib(size),
{
    match size {
        Some(mib) => mib,
        None => 0,
    }
}

impl VskPolicy {
    /// Whether boot is authorized: it never is. The deliberately empty
    /// hardware path cannot authorize anything.
    pub fn boot_authorized(&self) -> (yes: bool)
        ensures
            !yes,
    {
        false
    }

    /// The verdict on booting, with its reason in words.
    pub fn deny(&self) -> (verdict: (bool, &'static str))
        ensures
            (verdict.0, verdict.1@) == denial(*self),
    {
        (false, self.denial_reason.as_str())
    }

    /// Whether a host has what this policy requires of VMX, EPT and interrupt
    /// remapping. DMA remapping is not asked about here.
    pub fn required_features_present(&self, has_vmx: bool, has_ept: bool, has_irq: bool) -> (yes:
        bool)
        ensures
            yes <==> (self.require_vmx ==> has_vmx) && (self.require_ept ==> has_ept) && (
            self.require_interrupt_remapping ==> has_irq),
    {
        if self.require_vmx && !has_vmx {
            return false;
        }
        if self.require_ept && !has_ept {
            return false;
        }
        if self.require_interrupt_remapping && !has_irq {
            return false;
        }
        true
    }

    /// Normalizes the configuration that was read from `bytes`: `parsed` holds
    /// its settings, or why they could not be read. Weakened security settings
    /// are rejected: a DMA bypass, and every requirement that is turned off. A
    /// requirement that is not given is not rejected, and requires nothing.
    /// The result always denies boot.
    pub fn from_plist_bytes(bytes: &[u8], parsed: Result<RawPolicy, String>) -> (policy: Result<
        Self,
        PolicyError,
    >)
        requires
            bytes@.len() <= digest::SHA256_MAX_BYTES,
        ensures
            match policy {
                Ok(policy) => accepted_as(policy, bytes@, parsed),
                Err(error) => policy_verdict(parsed) == Err::<PolicyTerms, PolicyRefusal>(
                    refusal_of(error),
                ),
            },
    {
        let config_sha256: [u8; 32] = digest::sha256_of(bytes);
        let raw: RawPolicy = match parsed {
            Ok(raw) => raw,
            Err(reason) => return Err(PolicyError::Plist(reason)),
        };
        if let Some(name) = &raw.platform_policy {
            if !text::same_text(name.as_str(), "AppleIntelOnly") {
                return Err(PolicyError::PlatformPolicy(name.clone()));
            }
        }
        let cpu: &CpuConfig = match &raw.cpu {
            Some(cpu) => cpu,
            None => return Err(PolicyError::UnknownKey),
        };
        if let Some(isa) = &cpu.minimum_isa {
            if !text::same_text_ignoring_ascii_case(isa.as_str(), "sse4.2")
                && !text::same_text_ignoring_ascii_case(isa.as_str(), "sse42") {
                return Err(PolicyError::GuestProfile(isa.clone()));
            }
        }
        let security: &SecurityConfig = match &raw.security {
            Some(security) => security,
            None => return Err(PolicyError::UnknownKey),
        };
        if let Some(setting) = security.weakening() {
            return Err(PolicyError::WeakenedSecurity(setting));
        }
        let memory: &MemoryConfig = match &raw.memory {
            Some(memory) => memory,
            None => return Err(PolicyError::UnknownKey),
        };
        let guest_mib: u64 = mib(memory.guest_mib);
        let host_reserve_mib: u64 = mib(memory.host_reserve_mib);
        let jit_cache_mib: u64 = mib(memory.jit_cache_mib);
        if guest_mib == 0 || host_reserve_mib == 0 || jit_cache_mib == 0 {
            return Err(PolicyError::UnknownKey);
        }
        let guest: &GuestConfig = match &raw.guest {
            Some(guest) => guest,
            None => return Err(PolicyError::UnknownKey),
        };
        let guest_profile: Option<GuestProfile> = match &guest.profile_id {
            None => None,
            Some(name) => if name.as_str().unicode_len() == 0 {
                None
            } else if text::same_text(name.as_str(), "macos26-tahoe") {
                Some(GuestProfile::MacOS26Tahoe)
            } else if text::same_text(name.as_str(), "macos27-golden-gate") {
                Some(GuestProfile::MacOS27GoldenGate)
            } else {
                return Err(PolicyError::GuestProfile(name.clone()));
            },
        };
        Ok(
            VskPolicy {
                platform: PlatformPolicy::AppleIntelOnly,
                guest_profile,
                require_vmx: asked(security.vmx_required),
                require_ept: asked(security.ept_required),
                require_iommu: asked(security.iommu_required),
                require_interrupt_remapping: asked(security.interrupt_remapping_required),
                guest_mib,
                host_reserve_mib,
                jit_cache_mib,
                config_sha256,
                boot_authorized: false,
                denial_reason: DenialReason::NoSignatureVerifier,
            },
        )
    }

    /// The digest of the configuration as hexadecimal digits, for receipts.
    pub fn config_hash_hex(&self) -> (digits: String)
        ensures
            digits@ == text::hex(self.config_sha256@),
    {
        text::hex_text(self.config_sha256.as_slice())
    }
}

/// A grant from the root to a guest: a range of an object. It is a bounded
/// record, no proof that a verified root produced it.
#[derive(Debug, Clone, Copy, PartialEq, Eq, Structural)]
pub struct VfGrant {
    pub object_id: u64,
    pub offset: u64,
    pub length: u64,
    pub restricted: bool,
}

impl VfGrant {
    pub fn new(object_id: u64, offset: u64, length: u64) -> (grant: Self)
        ensures
            grant == (VfGrant { object_id, offset, length, restricted: false }),
    {
        VfGrant { object_id, offset, length, restricted: false }
    }

    /// Checks that the range lies inside an object of the given length.
    pub fn range_check(&self, within_object_len: u64) -> (outcome: Result<(), VfError>)
        ensures
            outcome == if self.offset + self.length <= within_object_len {
                Ok::<(), VfError>(())
            } else {
                Err(VfError::Erange)
            },
    {
        match self.offset.checked_add(self.length) {
            Some(end) => if end > within_object_len {
                Err(VfError::Erange)
            } else {
                Ok(())
            },
            None => Err(VfError::Erange),
        }
    }
}

/// A configuration that weakens security is never accepted: neither one that
/// asks for a DMA bypass nor one that turns a requirement off.
pub proof fn law_weakened_security_is_never_accepted(raw: RawPolicy)
    requires
        raw.security matches Some(security) && (security.dma_bypass == Some(true)
            || security.vmx_required == Some(false) || security.ept_required == Some(false)
            || security.iommu_required == Some(false) || security.interrupt_remapping_required
            == Some(false)),
    ensures
        normalized(raw) is Err,
{
}

/// An accepted policy requires every feature that its configuration mentions.
pub proof fn law_accepted_requirements_are_all_on(raw: RawPolicy)
    requires
        normalized(raw) is Ok,
    ensures
        ({
            let terms = normalized(raw)->Ok_0;
            let security = raw.security->Some_0;
            &&& terms.require_vmx == security.vmx_required is Some
            &&& terms.require_ept == security.ept_required is Some
            &&& terms.require_iommu == security.iommu_required is Some
            &&& terms.require_interrupt_remapping == security.interrupt_remapping_required is Some
        }),
{
    let security = raw.security->Some_0;
    lemma_on_or_off(security.vmx_required);
    lemma_on_or_off(security.ept_required);
    lemma_on_or_off(security.iommu_required);
    lemma_on_or_off(security.interrupt_remapping_required);
}

/// A setting that is given is on or off.
proof fn lemma_on_or_off(value: Option<bool>)
    ensures
        value is Some ==> value == Some(true) || value == Some(false),
{
    if let Some(on) = value {
        assert(on || !on);
    }
}

/// An accepted configuration denies boot, for want of a signature verifier; it
/// is for the product's platform, sizes the guest, and carries the digest of
/// its own bytes, which reads as 64 small hexadecimal digits.
pub proof fn law_accepted_policy_denies_boot(
    policy: VskPolicy,
    bytes: Seq<u8>,
    parsed: Result<RawPolicy, String>,
)
    requires
        accepted_as(policy, bytes, parsed),
    ensures
        !policy.boot_authorized,
        denial(policy) == (false, "no signature verifier"@),
        policy.platform == PlatformPolicy::AppleIntelOnly,
        policy.config_sha256@ == digest::sha256(bytes),
        text::hex(policy.config_sha256@) == text::hex(digest::sha256(bytes)),
        text::hex(policy.config_sha256@).len() == 64,
        forall|i: int|
            0 <= i < 64 ==> text::is_small_hex_digit(
                #[trigger] text::hex(policy.config_sha256@)[i],
            ),
        policy.guest_mib > 0,
        policy.host_reserve_mib > 0,
        policy.jit_cache_mib > 0,
{
    text::lemma_hex_digits(policy.config_sha256@);
}

/// A configuration for any platform but the product's is refused, by name.
pub proof fn law_foreign_platform_is_refused(raw: RawPolicy, name: Seq<char>)
    requires
        setting(raw.platform_policy) == Some(name),
        name != "AppleIntelOnly"@,
    ensures
        normalized(raw) == Err::<PolicyTerms, PolicyRefusal>(PolicyRefusal::PlatformPolicy(name)),
{
}

/// An accepted configuration has every section and leaves nothing out that
/// sizes the guest; its guest profile, if it names one, is registered.
pub proof fn law_accepted_policy_is_complete(raw: RawPolicy)
    requires
        normalized(raw) is Ok,
    ensures
        raw.cpu is Some && raw.security is Some && raw.memory is Some && raw.guest is Some,
        normalized(raw)->Ok_0.guest_mib > 0,
        normalized(raw)->Ok_0.host_reserve_mib > 0,
        normalized(raw)->Ok_0.jit_cache_mib > 0,
        normalized(raw)->Ok_0.guest_profile matches Some(profile) ==> setting(
            raw.guest->Some_0.profile_id,
        ) == Some(profile_name(profile)),
        normalized(raw)->Ok_0.guest_profile is None ==> (setting(
            raw.guest->Some_0.profile_id,
        ) matches Some(name) ==> name.len() == 0),
{
}

} // verus!
