//! Explicit host-user-space adapter to the VMApple execution workers: which
//! requests are admitted and the exact command that is run for them. A worker
//! PID is not a VM boot verdict.
use vstd::prelude::*;

use crate::text;

pub use crate::report::{RecoveryProgress, RunOutcome};

verus! {

/// Seconds that the recovery supervisor is given to clean up.
pub const RECOVERY_CLEANUP_GRACE_SECS: u32 = 5;

/// Why a request is not run.
#[derive(Debug, Clone, Copy, PartialEq, Eq)]
pub enum RunnerError {
    /// The request breaks the named rule.
    InvalidRequest(&'static str),
    /// The native worker requires local Apple-Silicon macOS.
    UnsupportedHost,
}

/// A host path as text; `None` stands for a path that is not UTF-8.
#[derive(Debug, Clone, PartialEq, Eq)]
pub struct RunnerPath {
    pub text: Option<String>,
}

/// What the admission rules need to know of the calling host.
#[derive(Debug, Clone, Copy, PartialEq, Eq)]
pub struct HostPlatform {
    pub windows: bool,
    pub apple_silicon_macos: bool,
}

/// How the worker is reached.
#[derive(Debug, Clone, PartialEq, Eq)]
pub enum RunnerHost {
    Local { python: RunnerPath },
    /// All request paths except `host_receipt_dir` are Linux paths in this distro.
    Wsl { distribution: String, python: RunnerPath },
}

#[derive(Debug, Clone, Copy, PartialEq, Eq)]
pub enum FirmwareKind {
    Avpbooter,
    IbootStage2,
}

/// Which worker runs the guest.
#[derive(Debug, Clone, PartialEq, Eq)]
pub enum RunnerBackend {
    Native { macosvm: RunnerPath },
    Tcg {
        qemu: RunnerPath,
        qemu_img: RunnerPath,
        firmware: RunnerPath,
        firmware_kind: FirmwareKind,
        memory_mib: u32,
        smp: u32,
    },
    /// Normal AVPBooter -> DFU -> iBEC -> restore execution, supervised in Linux.
    /// This is distinct from the raw Stage2/AVP `run-tcg` experiment.
    TcgRecovery {
        qemu: RunnerPath,
        qemu_img: RunnerPath,
        firmware: RunnerPath,
        memory_mib: u32,
        smp: u32,
        build_manifest: RunnerPath,
        tss_helper: RunnerPath,
        original_ibss: RunnerPath,
        original_ibec: RunnerPath,
        restore_role_dir: RunnerPath,
        transition_timeout_secs: u32,
        restore_timeout_secs: u32,
        total_timeout_secs: u32,
        optional_rpc_unavailable: bool,
    },
}

#[derive(Debug, Clone, PartialEq, Eq)]
pub struct RunnerRequest {
    pub host: RunnerHost,
    pub backend: RunnerBackend,
    pub repository: RunnerPath,
    pub vm_json: RunnerPath,
    pub output: RunnerPath,
    /// New directory on the current host; never an input or existing VM folder.
    pub host_receipt_dir: RunnerPath,
    pub target_major: u16,
    /// UART observation timeout for native/raw-TCG; unused by TCG recovery.
    pub observation_timeout_secs: u32,
    /// TCG recovery uses this only for the post-restore observation period.
    pub duration_secs: u32,
    pub research_only: bool,
}

/// A command, its arguments one by one, and where it is run.
#[derive(Debug, Clone, PartialEq, Eq)]
pub struct Invocation {
    pub executable: String,
    pub arguments: Vec<String>,
    pub current_dir: Option<String>,
}

/// Whether a path can stand as one command argument.
pub open spec fn usable_path(path: RunnerPath) -> bool {
    path.text matches Some(text) && text@.len() > 0 && !text@.contains('\0')
}

/// The argument that stands for a usable path.
pub open spec fn path_arg(path: RunnerPath) -> Seq<char> {
    path.text->0@
}

/// The refusal of a path that cannot stand as an argument.
pub open spec fn path_refusal() -> RunnerError {
    RunnerError::InvalidRequest("paths must be nonempty UTF-8 without NUL")
}

/// Whether every path that the backend is given can stand as an argument.
pub open spec fn backend_paths_usable(backend: RunnerBackend) -> bool {
    match backend {
        RunnerBackend::Native { macosvm } => usable_path(macosvm),
        RunnerBackend::Tcg { qemu, qemu_img, firmware, .. } => usable_path(qemu) && usable_path(
            qemu_img,
        ) && usable_path(firmware),
        RunnerBackend::TcgRecovery {
            qemu,
            qemu_img,
            firmware,
            build_manifest,
            tss_helper,
            original_ibss,
            original_ibec,
            restore_role_dir,
            ..
        } => usable_path(qemu) && usable_path(qemu_img) && usable_path(firmware) && usable_path(
            build_manifest,
        ) && usable_path(tss_helper) && usable_path(original_ibss) && usable_path(original_ibec)
            && usable_path(restore_role_dir),
    }
}

/// The limits of a backend that are broken, if any.
pub open spec fn backend_limits_refusal(backend: RunnerBackend, duration_secs: u32) -> Option<
    RunnerError,
> {
    match backend {
        RunnerBackend::Native { .. } => None,
        RunnerBackend::Tcg { memory_mib, smp, .. } => if 128 <= memory_mib <= 262144 && 1 <= smp
            <= 255 {
            None
        } else {
            Some(RunnerError::InvalidRequest("TCG memory/CPU count out of range"))
        },
        RunnerBackend::TcgRecovery {
            memory_mib,
            smp,
            transition_timeout_secs,
            restore_timeout_secs,
            total_timeout_secs,
            ..
        } => if !(512 <= memory_mib <= 1048576 && 1 <= smp <= 32) {
            Some(
                RunnerError::InvalidRequest(
                    "recovery memory must be 512..1048576 MiB and CPU count 1..32",
                ),
            )
        } else if !(1 <= transition_timeout_secs <= 300 && 1 <= restore_timeout_secs <= 300 && 30
            <= total_timeout_secs <= 86400 && total_timeout_secs > duration_secs
            + RECOVERY_CLEANUP_GRACE_SECS) {
            Some(
                RunnerError::InvalidRequest(
                    "recovery phase timeouts must be 1..300 seconds; total 30..86400 and greater than post duration plus 5 seconds cleanup",
                ),
            )
        } else {
            None
        },
    }
}

/// What is wrong with the transport, if anything.
pub open spec fn host_refusal(host: RunnerHost, platform: HostPlatform) -> Option<RunnerError> {
    match host {
        RunnerHost::Local { python } => if usable_path(python) {
            None
        } else {
            Some(path_refusal())
        },
        RunnerHost::Wsl { distribution, python } => if !platform.windows {
            Some(RunnerError::InvalidRequest("WSL transport requires Windows host"))
        } else if distribution@.len() == 0 || distribution@.contains('\0') {
            Some(RunnerError::InvalidRequest("WSL distribution must be explicit"))
        } else if !usable_path(python) {
            Some(path_refusal())
        } else {
            None
        },
    }
}

/// Why a request is refused on the given host; `None` where it is admitted.
pub open spec fn request_refusal(request: RunnerRequest, platform: HostPlatform) -> Option<
    RunnerError,
> {
    if !request.research_only {
        Some(RunnerError::InvalidRequest("explicit research_only acknowledgement required"))
    } else if request.target_major != 26 && request.target_major != 27 {
        Some(RunnerError::InvalidRequest("target must be 26 or 27"))
    } else if (!(request.backend is TcgRecovery) && !(1 <= request.observation_timeout_secs
        <= 86400)) || !(1 <= request.duration_secs <= 86400) {
        Some(RunnerError::InvalidRequest("timeouts must be 1..86400 seconds"))
    } else if request.backend is Native && !(platform.apple_silicon_macos && request.host is Local) {
        Some(RunnerError::UnsupportedHost)
    } else if !usable_path(request.host_receipt_dir) || !usable_path(request.repository) {
        Some(path_refusal())
    } else if backend_limits_refusal(request.backend, request.duration_secs) is Some {
        backend_limits_refusal(request.backend, request.duration_secs)
    } else if !backend_paths_usable(request.backend) || !usable_path(request.vm_json)
        || !usable_path(request.output) {
        Some(path_refusal())
    } else {
        host_refusal(request.host, platform)
    }
}

/// The worker module and the arguments that are the backend's own.
pub open spec fn backend_arguments(backend: RunnerBackend) -> Seq<Seq<char>> {
    match backend {
        RunnerBackend::Native { macosvm } => seq![
            "-m"@,
            "x86"@,
            "vmapple"@,
            "run-native"@,
            "--macosvm"@,
            path_arg(macosvm),
        ],
        RunnerBackend::Tcg { qemu, qemu_img, firmware, firmware_kind, memory_mib, smp } => seq![
            "-m"@,
            "x86"@,
            "vmapple"@,
            "run-tcg"@,
            "--qemu"@,
            path_arg(qemu),
            "--qemu-img"@,
            path_arg(qemu_img),
            "--firmware"@,
            path_arg(firmware),
            "--firmware-kind"@,
            firmware_kind.name(),
            "--memory-mib"@,
            text::decimal(memory_mib as nat),
            "--smp"@,
            text::decimal(smp as nat),
            "--display"@,
            "none"@,
        ],
        RunnerBackend::TcgRecovery {
            qemu,
            qemu_img,
            firmware,
            memory_mib,
            smp,
            build_manifest,
            tss_helper,
            original_ibss,
            original_ibec,
            restore_role_dir,
            transition_timeout_secs,
            restore_timeout_secs,
            total_timeout_secs,
            optional_rpc_unavailable,
        } => seq![
            "-m"@,
            "x86.recovery_supervisor"@,
            "--qemu"@,
            path_arg(qemu),
            "--qemu-img"@,
            path_arg(qemu_img),
            "--firmware"@,
            path_arg(firmware),
            "--build-manifest"@,
            path_arg(build_manifest),
            "--tss-helper"@,
            path_arg(tss_helper),
            "--original-ibss"@,
            path_arg(original_ibss),
            "--original-ibec"@,
            path_arg(original_ibec),
            "--restore-role-dir"@,
            path_arg(restore_role_dir),
            "--memory-mib"@,
            text::decimal(memory_mib as nat),
            "--smp"@,
            text::decimal(smp as nat),
            "--transition-timeout"@,
            text::decimal(transition_timeout_secs as nat),
            "--restore-timeout"@,
            text::decimal(restore_timeout_secs as nat),
            "--total-timeout"@,
            text::decimal(total_timeout_secs as nat),
            "--cleanup-grace"@,
            text::decimal(RECOVERY_CLEANUP_GRACE_SECS as nat),
        ] + if optional_rpc_unavailable {
            seq!["--optional-rpc-unavailable"@]
        } else {
            Seq::empty()
        },
    }
}

/// The arguments that every worker of an admitted request receives.
pub open spec fn worker_arguments(request: RunnerRequest) -> Seq<Seq<char>> {
    backend_arguments(request.backend) + seq![
        "--target"@,
        text::decimal(request.target_major as nat),
        "--vm-json"@,
        path_arg(request.vm_json),
        "--output"@,
        path_arg(request.output),
        "--duration"@,
        text::decimal(request.duration_secs as nat),
    ] + if request.backend is TcgRecovery {
        Seq::empty()
    } else {
        seq![
            "--observation-timeout"@,
            text::decimal(request.observation_timeout_secs as nat),
            "--research-only"@,
            "--json"@,
        ]
    }
}

/// The program that an admitted request starts.
pub open spec fn planned_executable(request: RunnerRequest) -> Seq<char> {
    match request.host {
        RunnerHost::Local { python } => path_arg(python),
        RunnerHost::Wsl { .. } => "wsl.exe"@,
    }
}

/// All arguments of the program that an admitted request starts.
pub open spec fn planned_arguments(request: RunnerRequest) -> Seq<Seq<char>> {
    match request.host {
        RunnerHost::Local { .. } => worker_arguments(request),
        RunnerHost::Wsl { distribution, python } => seq![
            "--distribution"@,
            distribution@,
            "--cd"@,
            path_arg(request.repository),
            "--exec"@,
            path_arg(python),
        ] + worker_arguments(request),
    }
}

/// The directory in which an admitted request is run, where it is set.
pub open spec fn planned_directory(request: RunnerRequest) -> Option<Seq<char>> {
    match request.host {
        RunnerHost::Local { .. } => Some(path_arg(request.repository)),
        RunnerHost::Wsl { .. } => None,
    }
}

impl FirmwareKind {
    /// The name that the worker knows this kind by.
    pub open spec fn name(self) -> Seq<char> {
        match self {
            FirmwareKind::Avpbooter => "avpbooter"@,
            FirmwareKind::IbootStage2 => "iboot-stage2"@,
        }
    }

    /// The worker argument for this kind.
    pub fn argument(self) -> (argument: &'static str)
        ensures
            argument@ == self.name(),
    {
        match self {
            FirmwareKind::Avpbooter => "avpbooter",
            FirmwareKind::IbootStage2 => "iboot-stage2",
        }
    }
}

impl RunnerPath {
    /// The path spelled `text`.
    pub fn new(text: &str) -> (path: Self)
        ensures
            path.text matches Some(held) && held@ == text@,
    {
        RunnerPath { text: Some(text.to_owned()) }
    }
}

/// The text of a path that can stand as one command argument.
pub fn text_path(path: &RunnerPath) -> (text: Result<String, RunnerError>)
    ensures
        match text {
            Ok(text) => usable_path(*path) && text@ == path_arg(*path),
            Err(error) => !usable_path(*path) && error == path_refusal(),
        },
{
    if let Some(text) = &path.text {
        if !text.as_str().is_empty() && !text::has_char(text.as_str(), '\0') {
            return Ok(text.clone());
        }
    }
    Err(RunnerError::InvalidRequest("paths must be nonempty UTF-8 without NUL"))
}

/// Appends one argument.
fn push_text(list: &mut Vec<String>, item: &str)
    ensures
        text::texts(final(list)@) == text::texts(old(list)@).push(item@),
{
    let ghost before = list@;
    list.push(item.to_owned());
    assert(text::texts(list@) =~= text::texts(before).push(item@));
}

/// Appends a flag and the path that follows it.
fn push_path(list: &mut Vec<String>, flag: &str, path: &RunnerPath) -> (outcome: Result<
    (),
    RunnerError,
>)
    ensures
        match outcome {
            Ok(_) => usable_path(*path) && text::texts(final(list)@) == text::texts(old(list)@).push(
                flag@,
            ).push(path_arg(*path)),
            Err(error) => !usable_path(*path) && error == path_refusal(),
        },
{
    let value: String = text_path(path)?;
    push_text(list, flag);
    push_text(list, value.as_str());
    Ok(())
}

/// Appends a flag and the number that follows it.
fn push_number(list: &mut Vec<String>, flag: &str, value: u32)
    ensures
        text::texts(final(list)@) == text::texts(old(list)@).push(flag@).push(
            text::decimal(value as nat),
        ),
{
    let value: String = text::decimal_text(value as u64);
    push_text(list, flag);
    push_text(list, value.as_str());
}

impl RunnerBackend {
    /// The report schema of this worker.
    pub open spec fn schema_name(self) -> Seq<char> {
        match self {
            RunnerBackend::Native { .. } => "26x86.macosvm-native/1"@,
            RunnerBackend::Tcg { .. } => "26x86.vmapple-tcg/1"@,
            RunnerBackend::TcgRecovery { .. } => "nextcore.recovery-supervisor/1"@,
        }
    }

    /// The engine that this worker drives.
    pub open spec fn engine_name(self) -> Seq<char> {
        match self {
            RunnerBackend::Native { .. } => "macosvm"@,
            RunnerBackend::Tcg { .. } => "qemu-vmapple-tcg"@,
            RunnerBackend::TcgRecovery { .. } => "qemu-vmapple-recovery"@,
        }
    }

    /// The schema that a report of this worker must carry.
    pub fn schema(&self) -> (schema: &'static str)
        ensures
            schema@ == self.schema_name(),
    {
        match self {
            RunnerBackend::Native { .. } => "26x86.macosvm-native/1",
            RunnerBackend::Tcg { .. } => "26x86.vmapple-tcg/1",
            RunnerBackend::TcgRecovery { .. } => "nextcore.recovery-supervisor/1",
        }
    }

    /// The engine that a report of this worker must name.
    pub fn engine(&self) -> (engine: &'static str)
        ensures
            engine@ == self.engine_name(),
    {
        match self {
            RunnerBackend::Native { .. } => "macosvm",
            RunnerBackend::Tcg { .. } => "qemu-vmapple-tcg",
            RunnerBackend::TcgRecovery { .. } => "qemu-vmapple-recovery",
        }
    }

    /// Whether this is the supervised recovery worker.
    pub fn is_recovery(&self) -> (yes: bool)
        ensures
            yes == (self is TcgRecovery),
    {
        matches!(self, RunnerBackend::TcgRecovery { .. })
    }

    /// Checks the limits of this backend.
    fn check_limits(&self, duration_secs: u32) -> (outcome: Result<(), RunnerError>)
        requires
            duration_secs <= 86400,
        ensures
            match outcome {
                Ok(_) => backend_limits_refusal(*self, duration_secs) is None,
                Err(error) => backend_limits_refusal(*self, duration_secs) == Some(error),
            },
    {
        match self {
            RunnerBackend::Native { .. } => Ok(()),
            RunnerBackend::Tcg { memory_mib, smp, .. } => {
                if *memory_mib < 128 || *memory_mib > 262144 || *smp < 1 || *smp > 255 {
                    return Err(RunnerError::InvalidRequest("TCG memory/CPU count out of range"));
                }
                Ok(())
            },
            RunnerBackend::TcgRecovery {
                memory_mib,
                smp,
                transition_timeout_secs,
                restore_timeout_secs,
                total_timeout_secs,
                ..
            } => {
                if *memory_mib < 512 || *memory_mib > 1048576 || *smp < 1 || *smp > 32 {
                    return Err(
                        RunnerError::InvalidRequest(
                            "recovery memory must be 512..1048576 MiB and CPU count 1..32",
                        ),
                    );
                }
                if *transition_timeout_secs < 1 || *transition_timeout_secs > 300
                    || *restore_timeout_secs < 1 || *restore_timeout_secs > 300
                    || *total_timeout_secs < 30 || *total_timeout_secs > 86400
                    || *total_timeout_secs <= duration_secs + RECOVERY_CLEANUP_GRACE_SECS {
                    return Err(
                        RunnerError::InvalidRequest(
                            "recovery phase timeouts must be 1..300 seconds; total 30..86400 and greater than post duration plus 5 seconds cleanup",
                        ),
                    );
                }
                Ok(())
            },
        }
    }

    /// Builds the arguments that are the backend's own.
    fn arguments(&self) -> (arguments: Result<Vec<String>, RunnerError>)
        ensures
            match arguments {
                Ok(list) => backend_paths_usable(*self) && text::texts(list@) == backend_arguments(
                    *self,
                ),
                Err(error) => !backend_paths_usable(*self) && error == path_refusal(),
            },
    {
        let mut list: Vec<String> = Vec::new();
        assert(text::texts(list@) =~= Seq::<Seq<char>>::empty());
        push_text(&mut list, "-m");
        match self {
            RunnerBackend::Native { macosvm } => {
                push_text(&mut list, "x86");
                push_text(&mut list, "vmapple");
                push_text(&mut list, "run-native");
                push_path(&mut list, "--macosvm", macosvm)?;
            },
            RunnerBackend::Tcg { qemu, qemu_img, firmware, firmware_kind, memory_mib, smp } => {
                push_text(&mut list, "x86");
                push_text(&mut list, "vmapple");
                push_text(&mut list, "run-tcg");
                push_path(&mut list, "--qemu", qemu)?;
                push_path(&mut list, "--qemu-img", qemu_img)?;
                push_path(&mut list, "--firmware", firmware)?;
                push_text(&mut list, "--firmware-kind");
                push_text(&mut list, firmware_kind.argument());
                push_number(&mut list, "--memory-mib", *memory_mib);
                push_number(&mut list, "--smp", *smp);
                push_text(&mut list, "--display");
                push_text(&mut list, "none");
            },
            RunnerBackend::TcgRecovery {
                qemu,
                qemu_img,
                firmware,
                memory_mib,
                smp,
                build_manifest,
                tss_helper,
                original_ibss,
                original_ibec,
                restore_role_dir,
                transition_timeout_secs,
                restore_timeout_secs,
                total_timeout_secs,
                optional_rpc_unavailable,
            } => {
                push_text(&mut list, "x86.recovery_supervisor");
                push_path(&mut list, "--qemu", qemu)?;
                push_path(&mut list, "--qemu-img", qemu_img)?;
                push_path(&mut list, "--firmware", firmware)?;
                push_path(&mut list, "--build-manifest", build_manifest)?;
                push_path(&mut list, "--tss-helper", tss_helper)?;
                push_path(&mut list, "--original-ibss", original_ibss)?;
                push_path(&mut list, "--original-ibec", original_ibec)?;
                push_path(&mut list, "--restore-role-dir", restore_role_dir)?;
                push_number(&mut list, "--memory-mib", *memory_mib);
                push_number(&mut list, "--smp", *smp);
                push_number(&mut list, "--transition-timeout", *transition_timeout_secs);
                push_number(&mut list, "--restore-timeout", *restore_timeout_secs);
                push_number(&mut list, "--total-timeout", *total_timeout_secs);
                push_number(&mut list, "--cleanup-grace", RECOVERY_CLEANUP_GRACE_SECS);
                if *optional_rpc_unavailable {
                    push_text(&mut list, "--optional-rpc-unavailable");
                }
            },
        }
        assert(text::texts(list@) =~= backend_arguments(*self));
        Ok(list)
    }
}

impl RunnerRequest {
    /// Builds the arguments that the worker itself receives.
    fn worker_arguments(&self) -> (arguments: Result<Vec<String>, RunnerError>)
        ensures
            match arguments {
                Ok(list) => {
                    &&& backend_paths_usable(self.backend)
                    &&& usable_path(self.vm_json)
                    &&& usable_path(self.output)
                    &&& text::texts(list@) == worker_arguments(*self)
                },
                Err(error) => {
                    &&& error == path_refusal()
                    &&& !(backend_paths_usable(self.backend) && usable_path(self.vm_json)
                        && usable_path(self.output))
                },
            },
    {
        let mut list: Vec<String> = self.backend.arguments()?;
        push_number(&mut list, "--target", self.target_major as u32);
        push_path(&mut list, "--vm-json", &self.vm_json)?;
        push_path(&mut list, "--output", &self.output)?;
        push_number(&mut list, "--duration", self.duration_secs);
        if !self.backend.is_recovery() {
            push_number(&mut list, "--observation-timeout", self.observation_timeout_secs);
            push_text(&mut list, "--research-only");
            push_text(&mut list, "--json");
        }
        assert(text::texts(list@) =~= worker_arguments(*self));
        Ok(list)
    }

    /// Admits the request on the given host and spells out the command to run.
    /// No platform fallback or policy relaxation is inferred, and every path is
    /// one argument of its own.
    pub fn invocation(&self, platform: HostPlatform) -> (invocation: Result<
        Invocation,
        RunnerError,
    >)
        ensures
            match invocation {
                Ok(command) => {
                    &&& request_refusal(*self, platform) is None
                    &&& command.executable@ == planned_executable(*self)
                    &&& text::texts(command.arguments@) == planned_arguments(*self)
                    &&& match command.current_dir {
                        Some(directory) => planned_directory(*self) == Some(directory@),
                        None => planned_directory(*self) is None,
                    }
                },
                Err(error) => request_refusal(*self, platform) == Some(error),
            },
    {
        if !self.research_only {
            return Err(
                RunnerError::InvalidRequest("explicit research_only acknowledgement required"),
            );
        }
        if self.target_major != 26 && self.target_major != 27 {
            return Err(RunnerError::InvalidRequest("target must be 26 or 27"));
        }
        if (!self.backend.is_recovery() && (self.observation_timeout_secs < 1
            || self.observation_timeout_secs > 86400)) || self.duration_secs < 1
            || self.duration_secs > 86400 {
            return Err(RunnerError::InvalidRequest("timeouts must be 1..86400 seconds"));
        }
        if matches!(self.backend, RunnerBackend::Native { .. }) && (!platform.apple_silicon_macos
            || !matches!(self.host, RunnerHost::Local { .. })) {
            return Err(RunnerError::UnsupportedHost);
        }
        let _receipts: String = text_path(&self.host_receipt_dir)?;
        let repository: String = text_path(&self.repository)?;
        self.backend.check_limits(self.duration_secs)?;
        let mut arguments: Vec<String> = self.worker_arguments()?;
        match &self.host {
            RunnerHost::Local { python } => {
                let executable: String = text_path(python)?;
                Ok(Invocation { executable, arguments, current_dir: Some(repository) })
            },
            RunnerHost::Wsl { distribution, python } => {
                if !platform.windows {
                    return Err(RunnerError::InvalidRequest("WSL transport requires Windows host"));
                }
                if distribution.as_str().is_empty() || text::has_char(distribution.as_str(), '\0') {
                    return Err(RunnerError::InvalidRequest("WSL distribution must be explicit"));
                }
                let mut prefix: Vec<String> = Vec::new();
                assert(text::texts(prefix@) =~= Seq::<Seq<char>>::empty());
                push_text(&mut prefix, "--distribution");
                push_text(&mut prefix, distribution.as_str());
                push_text(&mut prefix, "--cd");
                push_text(&mut prefix, repository.as_str());
                push_path(&mut prefix, "--exec", python)?;
                let ghost head = prefix@;
                let ghost tail = arguments@;
                prefix.append(&mut arguments);
                assert(text::texts(prefix@) =~= text::texts(head) + text::texts(tail));
                assert(text::texts(prefix@) =~= planned_arguments(*self));
                Ok(
                    Invocation {
                        executable: "wsl.exe".to_owned(),
                        arguments: prefix,
                        current_dir: None,
                    },
                )
            },
        }
    }
}

/// Nothing is run without the explicit acknowledgement, whatever else the
/// request says.
pub proof fn law_unacknowledged_request_is_refused(request: RunnerRequest, platform: HostPlatform)
    requires
        !request.research_only,
    ensures
        request_refusal(request, platform) is Some,
{
}

/// The native backend is never reached but locally on Apple-Silicon macOS.
pub proof fn law_native_runs_only_on_apple_silicon(request: RunnerRequest, platform: HostPlatform)
    requires
        request.backend is Native,
        request_refusal(request, platform) is None,
    ensures
        platform.apple_silicon_macos,
        request.host is Local,
{
}

/// Every path that an admitted request names for its worker reaches it as one
/// argument of its own, as it was written.
pub proof fn law_paths_are_single_arguments(request: RunnerRequest, platform: HostPlatform)
    requires
        request_refusal(request, platform) is None,
    ensures
        planned_arguments(request).contains(path_arg(request.vm_json)),
        planned_arguments(request).contains(path_arg(request.output)),
        request.backend matches RunnerBackend::Native { macosvm } ==> planned_arguments(
            request,
        ).contains(path_arg(macosvm)),
        request.backend matches RunnerBackend::Tcg { qemu, qemu_img, firmware, .. } ==> ({
            &&& planned_arguments(request).contains(path_arg(qemu))
            &&& planned_arguments(request).contains(path_arg(qemu_img))
            &&& planned_arguments(request).contains(path_arg(firmware))
        }),
        request.backend matches RunnerBackend::TcgRecovery {
            qemu,
            qemu_img,
            firmware,
            build_manifest,
            tss_helper,
            original_ibss,
            original_ibec,
            restore_role_dir,
            ..
        } ==> ({
            &&& planned_arguments(request).contains(path_arg(qemu))
            &&& planned_arguments(request).contains(path_arg(qemu_img))
            &&& planned_arguments(request).contains(path_arg(firmware))
            &&& planned_arguments(request).contains(path_arg(build_manifest))
            &&& planned_arguments(request).contains(path_arg(tss_helper))
            &&& planned_arguments(request).contains(path_arg(original_ibss))
            &&& planned_arguments(request).contains(path_arg(original_ibec))
            &&& planned_arguments(request).contains(path_arg(restore_role_dir))
        }),
{
    let all = planned_arguments(request);
    let own = backend_arguments(request.backend);
    let first: int = if request.host is Local {
        0
    } else {
        6
    };
    let n = first + own.len() as int;
    assert(all[n + 3] == path_arg(request.vm_json));
    assert(all[n + 5] == path_arg(request.output));
    match request.backend {
        RunnerBackend::Native { macosvm } => {
            assert(all[first + 5] == path_arg(macosvm));
        },
        RunnerBackend::Tcg { qemu, qemu_img, firmware, .. } => {
            assert(all[first + 5] == path_arg(qemu));
            assert(all[first + 7] == path_arg(qemu_img));
            assert(all[first + 9] == path_arg(firmware));
        },
        RunnerBackend::TcgRecovery {
            qemu,
            qemu_img,
            firmware,
            build_manifest,
            tss_helper,
            original_ibss,
            original_ibec,
            restore_role_dir,
            ..
        } => {
            assert(all[first + 3] == path_arg(qemu));
            assert(all[first + 5] == path_arg(qemu_img));
            assert(all[first + 7] == path_arg(firmware));
            assert(all[first + 9] == path_arg(build_manifest));
            assert(all[first + 11] == path_arg(tss_helper));
            assert(all[first + 13] == path_arg(original_ibss));
            assert(all[first + 15] == path_arg(original_ibec));
            assert(all[first + 17] == path_arg(restore_role_dir));
        },
    }
}

/// The transport does not change what the worker is told: through WSL it gets
/// the arguments that it gets locally, after those of the transport.
pub proof fn law_transport_keeps_worker_arguments(request: RunnerRequest, python: RunnerPath)
    requires
        request.host is Wsl,
    ensures
        planned_arguments(request).skip(6) == planned_arguments(
            RunnerRequest { host: RunnerHost::Local { python }, ..request },
        ),
{
    assert(planned_arguments(request).skip(6) =~= worker_arguments(request));
}

/// An admitted recovery run has time left for its clean-up after the
/// observation period.
pub proof fn law_recovery_leaves_time_to_clean_up(request: RunnerRequest, platform: HostPlatform)
    requires
        request.backend is TcgRecovery,
        request_refusal(request, platform) is None,
    ensures
        request.backend->TcgRecovery_total_timeout_secs > request.duration_secs
            + RECOVERY_CLEANUP_GRACE_SECS,
{
}

} // verus!
