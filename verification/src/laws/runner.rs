//! Which requests are run, and what their commands tell the worker.
use vstd::prelude::*;

use crate::laws::text as text_laws;
use crate::runner;
use crate::runner::{
    FirmwareKind, HostPlatform, Invocation, RunnerBackend, RunnerError, RunnerHost, RunnerPath, RunnerRequest,
};
use crate::text;

verus! {

/// Whether `request` was admitted and gave `command`.
pub open spec fn commanded(
    request: RunnerRequest,
    platform: HostPlatform,
    command: Invocation,
) -> bool {
    call_ensures(
        RunnerRequest::invocation,
        (&request, platform),
        Ok::<Invocation, RunnerError>(command),
    )
}

/// Argument `i` of a command.
pub open spec fn argument(command: Invocation, i: int) -> Seq<char> {
    command.arguments@[i]@
}

/// Whether `value` is the argument right after `flag`.
pub open spec fn passes(command: Invocation, flag: Seq<char>, value: Seq<char>) -> bool {
    exists|i: int|
        0 <= i && i + 1 < command.arguments@.len() && #[trigger] argument(command, i) == flag
            && argument(command, i + 1) == value
}

/// Whether `n` in decimal is the argument right after `flag`.
pub open spec fn passes_number(command: Invocation, flag: Seq<char>, n: int) -> bool {
    exists|i: int|
        0 <= i && i + 1 < command.arguments@.len() && #[trigger] argument(command, i) == flag
            && text_laws::numeral(argument(command, i + 1)) == n && argument(command, i + 1).len()
            > 0
}

/// Whether the path, as it was written, is the argument right after `flag`.
pub open spec fn passes_path(command: Invocation, flag: Seq<char>, path: RunnerPath) -> bool {
    path.text matches Some(written) && passes(command, flag, written@)
}

/// How many arguments come before those of the worker: those of the transport.
pub open spec fn transport(request: RunnerRequest) -> int {
    if request.host is Local {
        0
    } else {
        6
    }
}

/// The worker is told, each right after its flag, the target, the machine, the
/// output and the duration that the request asks for.
pub proof fn law_every_worker_is_told(
    request: RunnerRequest,
    platform: HostPlatform,
    command: Invocation,
)
    requires
        commanded(request, platform, command),
    ensures
        passes_number(command, "--target"@, request.target_major as int),
        passes_path(command, "--vm-json"@, request.vm_json),
        passes_path(command, "--output"@, request.output),
        passes_number(command, "--duration"@, request.duration_secs as int),
{
    let n = transport(request) + own_length(request.backend);
    lemma_arguments(request, platform, command);
    assert(argument(command, n) == "--target"@);
    assert(argument(command, n + 2) == "--vm-json"@);
    assert(argument(command, n + 4) == "--output"@);
    assert(argument(command, n + 6) == "--duration"@);
    text_laws::lemma_decimal(request.target_major as nat);
    text_laws::lemma_decimal(request.duration_secs as nat);
}

/// The worker of a native or plain emulated run is told the observation
/// timeout that the request asks for, right after its flag and in decimal, and
/// at the end that this is research and that it reports in JSON.
pub proof fn law_observation_timeout_reaches_the_worker(
    request: RunnerRequest,
    platform: HostPlatform,
    command: Invocation,
)
    requires
        commanded(request, platform, command),
        !(request.backend is TcgRecovery),
    ensures
        ({
            let n = command.arguments@.len() as int;
            &&& n >= 4
            &&& argument(command, n - 4) == "--observation-timeout"@
            &&& text_laws::numeral(argument(command, n - 3)) == request.observation_timeout_secs
            &&& argument(command, n - 2) == "--research-only"@
            &&& argument(command, n - 1) == "--json"@
        }),
{
    lemma_arguments(request, platform, command);
    text_laws::lemma_decimal(request.observation_timeout_secs as nat);
}

/// Commands of requests that ask for different observation timeouts differ.
pub proof fn law_observation_timeouts_tell_commands_apart(
    request: RunnerRequest,
    other: RunnerRequest,
    platform: HostPlatform,
    command: Invocation,
    second: Invocation,
)
    requires
        commanded(request, platform, command),
        commanded(other, platform, second),
        !(request.backend is TcgRecovery) && !(other.backend is TcgRecovery),
        request.observation_timeout_secs != other.observation_timeout_secs,
    ensures
        text::texts(command.arguments@) != text::texts(second.arguments@),
{
    law_observation_timeout_reaches_the_worker(request, platform, command);
    law_observation_timeout_reaches_the_worker(other, platform, second);
    let n = command.arguments@.len() as int;
    if text::texts(command.arguments@) == text::texts(second.arguments@) {
        assert(second.arguments@.len() == text::texts(second.arguments@).len());
        assert(text::texts(command.arguments@)[n - 3] == argument(command, n - 3));
        assert(text::texts(second.arguments@)[n - 3] == argument(second, n - 3));
    }
}

/// The native worker is started as such, with its machine runner.
pub proof fn law_native_worker_is_told(
    request: RunnerRequest,
    platform: HostPlatform,
    command: Invocation,
)
    requires
        commanded(request, platform, command),
        request.backend is Native,
    ensures
        request.backend matches RunnerBackend::Native { macosvm } && passes_path(
            command,
            "--macosvm"@,
            macosvm,
        ),
        command.arguments@.len() == 18,
        argument(command, 0) == "-m"@ && argument(command, 1) == "x86"@ && argument(command, 2)
            == "vmapple"@ && argument(command, 3) == "run-native"@,
{
    lemma_arguments(request, platform, command);
    assert(argument(command, 4) == "--macosvm"@);
}

/// The plain emulator is started as such, without a display, and is told each
/// tool, the firmware and its kind, and the size of the machine.
pub proof fn law_emulated_worker_is_told(
    request: RunnerRequest,
    platform: HostPlatform,
    command: Invocation,
)
    requires
        commanded(request, platform, command),
        request.backend is Tcg,
    ensures
        request.backend matches RunnerBackend::Tcg {
            qemu,
            qemu_img,
            firmware,
            firmware_kind,
            memory_mib,
            smp,
        } && passes_path(command, "--qemu"@, qemu) && passes_path(command, "--qemu-img"@, qemu_img)
            && passes_path(command, "--firmware"@, firmware) && passes(
            command,
            "--firmware-kind"@,
            if firmware_kind is Avpbooter {
                "avpbooter"@
            } else {
                "iboot-stage2"@
            },
        ) && passes_number(command, "--memory-mib"@, memory_mib as int) && passes_number(
            command,
            "--smp"@,
            smp as int,
        ) && passes(command, "--display"@, "none"@),
        ({
            let t = transport(request);
            &&& command.arguments@.len() == t + 30
            &&& argument(command, t) == "-m"@ && argument(command, t + 1) == "x86"@
            &&& argument(command, t + 2) == "vmapple"@ && argument(command, t + 3) == "run-tcg"@
        }),
{
    let t = transport(request);
    lemma_arguments(request, platform, command);
    assert(argument(command, t + 4) == "--qemu"@);
    assert(argument(command, t + 6) == "--qemu-img"@);
    assert(argument(command, t + 8) == "--firmware"@);
    assert(argument(command, t + 10) == "--firmware-kind"@);
    assert(argument(command, t + 12) == "--memory-mib"@);
    assert(argument(command, t + 14) == "--smp"@);
    assert(argument(command, t + 16) == "--display"@);
    text_laws::lemma_decimal(request.backend->Tcg_memory_mib as nat);
    text_laws::lemma_decimal(request.backend->Tcg_smp as nat);
}

/// The recovery supervisor is started as such, and is told each tool and input,
/// the size of the machine, each of its timeouts, and five seconds to clean
/// up; that a service is missing, only where it is.
pub proof fn law_recovery_supervisor_is_told(
    request: RunnerRequest,
    platform: HostPlatform,
    command: Invocation,
)
    requires
        commanded(request, platform, command),
        request.backend is TcgRecovery,
    ensures
        request.backend matches RunnerBackend::TcgRecovery {
            qemu,
            qemu_img,
            firmware,
            memory_mib,
            smp,
            build_manifest,
            tss_helper,
            original_ibss,
            original_ibec,
            restore_role_dir,
            transition_timeout_secs,
            restore_timeout_secs,
            total_timeout_secs,
            optional_rpc_unavailable,
        } && passes_path(command, "--qemu"@, qemu) && passes_path(command, "--qemu-img"@, qemu_img)
            && passes_path(command, "--firmware"@, firmware) && passes_path(
            command,
            "--build-manifest"@,
            build_manifest,
        ) && passes_path(command, "--tss-helper"@, tss_helper) && passes_path(
            command,
            "--original-ibss"@,
            original_ibss,
        ) && passes_path(command, "--original-ibec"@, original_ibec) && passes_path(
            command,
            "--restore-role-dir"@,
            restore_role_dir,
        ) && passes_number(command, "--memory-mib"@, memory_mib as int) && passes_number(
            command,
            "--smp"@,
            smp as int,
        ) && passes_number(command, "--transition-timeout"@, transition_timeout_secs as int)
            && passes_number(command, "--restore-timeout"@, restore_timeout_secs as int)
            && passes_number(command, "--total-timeout"@, total_timeout_secs as int)
            && passes_number(command, "--cleanup-grace"@, 5) && command.arguments@.len()
            == transport(request) + (if optional_rpc_unavailable {
            39int
        } else {
            38
        }) && (optional_rpc_unavailable ==> argument(command, transport(request) + 30)
            == "--optional-rpc-unavailable"@),
        argument(command, transport(request)) == "-m"@,
        argument(command, transport(request) + 1) == "x86.recovery_supervisor"@,
{
    let t = transport(request);
    lemma_arguments(request, platform, command);
    assert(argument(command, t + 2) == "--qemu"@);
    assert(argument(command, t + 4) == "--qemu-img"@);
    assert(argument(command, t + 6) == "--firmware"@);
    assert(argument(command, t + 8) == "--build-manifest"@);
    assert(argument(command, t + 10) == "--tss-helper"@);
    assert(argument(command, t + 12) == "--original-ibss"@);
    assert(argument(command, t + 14) == "--original-ibec"@);
    assert(argument(command, t + 16) == "--restore-role-dir"@);
    assert(argument(command, t + 18) == "--memory-mib"@);
    assert(argument(command, t + 20) == "--smp"@);
    assert(argument(command, t + 22) == "--transition-timeout"@);
    assert(argument(command, t + 24) == "--restore-timeout"@);
    assert(argument(command, t + 26) == "--total-timeout"@);
    assert(argument(command, t + 28) == "--cleanup-grace"@);
    text_laws::lemma_decimal(request.backend->TcgRecovery_memory_mib as nat);
    text_laws::lemma_decimal(request.backend->TcgRecovery_smp as nat);
    text_laws::lemma_decimal(request.backend->TcgRecovery_transition_timeout_secs as nat);
    text_laws::lemma_decimal(request.backend->TcgRecovery_restore_timeout_secs as nat);
    text_laws::lemma_decimal(request.backend->TcgRecovery_total_timeout_secs as nat);
    text_laws::lemma_decimal(5);
}

/// Locally the interpreter that the request names is run in the repository;
/// through WSL it is handed to `wsl.exe`, with the distribution and the
/// repository before it, in no directory.
pub proof fn law_transport(request: RunnerRequest, platform: HostPlatform, command: Invocation)
    requires
        commanded(request, platform, command),
    ensures
        match request.host {
            RunnerHost::Local { python } => {
                &&& command.executable@ == python.text->Some_0@
                &&& command.current_dir matches Some(directory) && directory@
                    == request.repository.text->Some_0@
            },
            RunnerHost::Wsl { distribution, python } => {
                &&& platform.windows
                &&& command.executable@ == "wsl.exe"@
                &&& command.current_dir is None
                &&& command.arguments@.len() > 6
                &&& argument(command, 0) == "--distribution"@
                &&& argument(command, 1) == distribution@
                &&& argument(command, 2) == "--cd"@
                &&& argument(command, 3) == request.repository.text->Some_0@
                &&& argument(command, 4) == "--exec"@
                &&& argument(command, 5) == python.text->Some_0@
            },
        },
{
    lemma_arguments(request, platform, command);
}

/// Whether a path can be handed on: it is text, not empty, without a NUL.
pub open spec fn usable(path: RunnerPath) -> bool {
    path.text matches Some(written) && written@.len() != 0 && forall|i: int|
        0 <= i < written@.len() ==> written@[i] != '\0'
}

/// Whether every path of a backend can be handed on.
pub open spec fn backend_usable(backend: RunnerBackend) -> bool {
    match backend {
        RunnerBackend::Native { macosvm } => usable(macosvm),
        RunnerBackend::Tcg { qemu, qemu_img, firmware, .. } => {
            &&& usable(qemu)
            &&& usable(qemu_img)
            &&& usable(firmware)
        },
        RunnerBackend::TcgRecovery {
            qemu,
            qemu_img,
            firmware,
            build_manifest,
            tss_helper,
            original_ibss,
            original_ibec,
            restore_role_dir,
            ..
        } => {
            &&& usable(qemu)
            &&& usable(qemu_img)
            &&& usable(firmware)
            &&& usable(build_manifest)
            &&& usable(tss_helper)
            &&& usable(original_ibss)
            &&& usable(original_ibec)
            &&& usable(restore_role_dir)
        },
    }
}

/// Whether the machine and the timeouts of a backend are within bounds.
pub open spec fn sizes_in_bounds(request: RunnerRequest) -> bool {
    match request.backend {
        RunnerBackend::Native { .. } => true,
        RunnerBackend::Tcg { memory_mib, smp, .. } => {
            &&& 127 < memory_mib < 262145
            &&& 0 < smp < 256
        },
        RunnerBackend::TcgRecovery { memory_mib, smp, .. } => {
            &&& 511 < memory_mib < 1048577
            &&& 0 < smp < 33
        },
    }
}

/// Whether the timeouts of a recovery are within bounds, with five seconds
/// left to clean up after the observation.
pub open spec fn budget_in_bounds(request: RunnerRequest) -> bool {
    request.backend matches RunnerBackend::TcgRecovery {
        transition_timeout_secs,
        restore_timeout_secs,
        total_timeout_secs,
        ..
    } ==> ({
        &&& 0 < transition_timeout_secs < 301
        &&& 0 < restore_timeout_secs < 301
        &&& 29 < total_timeout_secs < 86401
        &&& request.duration_secs + 5 < total_timeout_secs
    })
}

/// Whether the durations that the worker gets are within a day.
pub open spec fn durations_in_bounds(request: RunnerRequest) -> bool {
    &&& 0 < request.duration_secs < 86401
    &&& request.backend is TcgRecovery || 0 < request.observation_timeout_secs < 86401
}

/// Whether the transport can be had.
pub open spec fn transport_usable(request: RunnerRequest, platform: HostPlatform) -> bool {
    match request.host {
        RunnerHost::Local { python } => usable(python),
        RunnerHost::Wsl { distribution, python } => {
            &&& platform.windows
            &&& distribution@.len() != 0 && forall|i: int|
                0 <= i < distribution@.len() ==> distribution@[i] != '\0'
            &&& usable(python)
        },
    }
}

/// A request is admitted exactly where it is acknowledged as research, for one
/// of the two targets, on a host that can run it, with durations, sizes and
/// budgets within bounds and paths that can be handed on.
pub proof fn law_admission(
    request: RunnerRequest,
    platform: HostPlatform,
    outcome: Result<Invocation, RunnerError>,
)
    requires
        call_ensures(RunnerRequest::invocation, (&request, platform), outcome),
    ensures
        outcome is Ok <==> ({
            &&& request.research_only
            &&& request.target_major == 26 || request.target_major == 27
            &&& durations_in_bounds(request)
            &&& request.backend is Native ==> platform.apple_silicon_macos && request.host is Local
            &&& usable(request.host_receipt_dir) && usable(request.repository)
            &&& sizes_in_bounds(request) && budget_in_bounds(request)
            &&& backend_usable(request.backend)
            &&& usable(request.vm_json) && usable(request.output)
            &&& transport_usable(request, platform)
        }),
{
    lemma_all_usable(request);
}

/// The error of a refused request names the first rule that it breaks.
pub proof fn law_first_broken_rule(
    request: RunnerRequest,
    platform: HostPlatform,
    error: RunnerError,
)
    requires
        call_ensures(
            RunnerRequest::invocation,
            (&request, platform),
            Err::<Invocation, RunnerError>(error),
        ),
    ensures
        ({
            let acknowledged = request.research_only;
            let targeted = acknowledged && (request.target_major == 26 || request.target_major
                == 27);
            let timed = targeted && durations_in_bounds(request);
            let hosted = timed && (request.backend is Native ==> platform.apple_silicon_macos
                && request.host is Local);
            let placed = hosted && usable(request.host_receipt_dir) && usable(request.repository);
            let sized = placed && sizes_in_bounds(request);
            let budgeted = sized && budget_in_bounds(request);
            let spelled = budgeted && backend_usable(request.backend) && usable(request.vm_json)
                && usable(request.output);
            let paths = RunnerError::InvalidRequest("paths must be nonempty UTF-8 without NUL");
            &&& !acknowledged ==> error == RunnerError::InvalidRequest(
                "explicit research_only acknowledgement required",
            )
            &&& acknowledged && !targeted ==> error == RunnerError::InvalidRequest(
                "target must be 26 or 27",
            )
            &&& targeted && !timed ==> error == RunnerError::InvalidRequest(
                "timeouts must be 1..86400 seconds",
            )
            &&& timed && !hosted ==> error == RunnerError::UnsupportedHost
            &&& hosted && !placed ==> error == paths
            &&& placed && !sized && request.backend is Tcg ==> error == RunnerError::InvalidRequest(
                "TCG memory/CPU count out of range",
            )
            &&& placed && !sized && request.backend is TcgRecovery ==> error
                == RunnerError::InvalidRequest(
                "recovery memory must be 512..1048576 MiB and CPU count 1..32",
            )
            &&& sized && !budgeted ==> error == RunnerError::InvalidRequest(
                "recovery phase timeouts must be 1..300 seconds; total 30..86400 and greater than post duration plus 5 seconds cleanup",
            )
            &&& budgeted && !spelled ==> error == paths
            &&& spelled && request.host is Wsl && !platform.windows ==> error
                == RunnerError::InvalidRequest("WSL transport requires Windows host")
            &&& spelled && platform.windows ==> (request.host matches RunnerHost::Wsl {
                distribution,
                ..
            } ==> error == if distribution@.len() != 0 && forall|i: int|
                0 <= i < distribution@.len() ==> distribution@[i] != '\0' {
                paths
            } else {
                RunnerError::InvalidRequest("WSL distribution must be explicit")
            })
            &&& spelled && request.host is Local ==> error == paths
        }),
{
    lemma_all_usable(request);
}

/// What the command tells the worker tells requests for the same kind of
/// backend and transport apart: where the commands are the same, so are the
/// settings.
pub proof fn law_command_determines_settings(
    request: RunnerRequest,
    other: RunnerRequest,
    platform: HostPlatform,
    command: Invocation,
    second: Invocation,
)
    requires
        commanded(request, platform, command),
        commanded(other, platform, second),
        request.host is Local == other.host is Local,
        text::texts(command.arguments@) == text::texts(second.arguments@),
    ensures
        request.target_major == other.target_major,
        request.duration_secs == other.duration_secs,
        request.vm_json.text->Some_0@ == other.vm_json.text->Some_0@,
        request.output.text->Some_0@ == other.output.text->Some_0@,
        request.backend is Native == other.backend is Native,
        request.backend is Tcg == other.backend is Tcg,
        !(request.backend is TcgRecovery) ==> request.observation_timeout_secs
            == other.observation_timeout_secs,
{
    let t = transport(request);
    lemma_arguments(request, platform, command);
    lemma_arguments(other, platform, second);
    assert(command.arguments@.len() == text::texts(command.arguments@).len());
    assert(second.arguments@.len() == text::texts(second.arguments@).len());
    assert forall|i: int| 0 <= i < command.arguments@.len() implies #[trigger] argument(command, i)
        == argument(second, i) by {
        assert(text::texts(command.arguments@)[i] == argument(command, i));
        assert(text::texts(second.arguments@)[i] == argument(second, i));
    }
    let n = t + own_length(request.backend);
    assert(argument(command, n + 1) == argument(second, n + 1));
    assert(argument(command, n + 3) == argument(second, n + 3));
    assert(argument(command, n + 5) == argument(second, n + 5));
    assert(argument(command, n + 7) == argument(second, n + 7));
    text_laws::lemma_decimal(request.target_major as nat);
    text_laws::lemma_decimal(other.target_major as nat);
    text_laws::lemma_decimal(request.duration_secs as nat);
    text_laws::lemma_decimal(other.duration_secs as nat);
    if !(request.backend is TcgRecovery) {
        assert(argument(command, n + 9) == argument(second, n + 9));
        text_laws::lemma_decimal(request.observation_timeout_secs as nat);
        text_laws::lemma_decimal(other.observation_timeout_secs as nat);
    }
}

/// A run of an admitted request begins with the command that the request
/// gives, and one of a refused request not at all, for the same reason.
pub proof fn law_begin_runs_the_command(
    request: RunnerRequest,
    platform: HostPlatform,
    outcome: Result<Invocation, RunnerError>,
    begun: Result<(Invocation, crate::orchestration::RunPhase), RunnerError>,
)
    requires
        call_ensures(RunnerRequest::invocation, (&request, platform), outcome),
        call_ensures(RunnerRequest::begin, (&request, platform), begun),
    ensures
        match (outcome, begun) {
            (Ok(command), Ok((same, phase))) => {
                &&& phase is MakeReceipts
                &&& same.executable@ == command.executable@
                &&& text::texts(same.arguments@) == text::texts(command.arguments@)
                &&& match (same.current_dir, command.current_dir) {
                    (Some(a), Some(b)) => a@ == b@,
                    (None, None) => true,
                    _ => false,
                }
            },
            (Err(error), Err(same)) => error == same,
            _ => false,
        },
{
}

/// A path spelled by a text is handed on as that text exactly where it is not
/// empty and has no NUL; a path that is no text is not handed on.
pub proof fn law_path_handed_on(
    written: &str,
    path: RunnerPath,
    handed: Result<String, RunnerError>,
    unspelled: Result<String, RunnerError>,
)
    requires
        call_ensures(RunnerPath::new, (written,), path),
        call_ensures(runner::text_path, (&path,), handed),
        call_ensures(runner::text_path, (&RunnerPath { text: None },), unspelled),
    ensures
        match handed {
            Ok(same) => same@ == written@ && written@.len() != 0 && forall|i: int|
                0 <= i < written@.len() ==> written@[i] != '\0',
            Err(error) => (written@.len() == 0 || exists|i: int|
                0 <= i < written@.len() && written@[i] == '\0') && error
                == RunnerError::InvalidRequest("paths must be nonempty UTF-8 without NUL"),
        },
        unspelled == Err::<String, RunnerError>(
            RunnerError::InvalidRequest("paths must be nonempty UTF-8 without NUL"),
        ),
{
    lemma_no_nul(written@);
    assert(path.text->Some_0@ == written@);
}

/// Each backend has a schema and an engine of its own, and one of the three is
/// the recovery.
pub proof fn law_backend_names(
    backend: RunnerBackend,
    schema: &'static str,
    engine: &'static str,
    recovery: bool,
)
    requires
        call_ensures(RunnerBackend::schema, (&backend,), schema),
        call_ensures(RunnerBackend::engine, (&backend,), engine),
        call_ensures(RunnerBackend::is_recovery, (&backend,), recovery),
    ensures
        backend is Native ==> schema@ == "26x86.macosvm-native/1"@ && engine@ == "macosvm"@
            && !recovery,
        backend is Tcg ==> schema@ == "26x86.vmapple-tcg/1"@ && engine@ == "qemu-vmapple-tcg"@
            && !recovery,
        backend is TcgRecovery ==> schema@ == "nextcore.recovery-supervisor/1"@ && engine@
            == "qemu-vmapple-recovery"@ && recovery,
{
}

/// Each kind of firmware is known to the worker by a name of its own.
pub proof fn law_firmware_names(kind: FirmwareKind, name: &'static str)
    requires
        call_ensures(FirmwareKind::argument, (kind,), name),
    ensures
        kind is Avpbooter ==> name@ == "avpbooter"@,
        kind is IbootStage2 ==> name@ == "iboot-stage2"@,
{
}

/// How many arguments are a backend's own.
spec fn own_length(backend: RunnerBackend) -> int {
    match backend {
        RunnerBackend::Native { .. } => 6,
        RunnerBackend::Tcg { .. } => 18,
        RunnerBackend::TcgRecovery { optional_rpc_unavailable, .. } => if optional_rpc_unavailable {
            31
        } else {
            30
        },
    }
}

proof fn lemma_arguments(request: RunnerRequest, platform: HostPlatform, command: Invocation)
    requires
        commanded(request, platform, command),
    ensures
        command.arguments@.len() == runner::planned_arguments(request).len(),
        command.arguments@.len() == transport(request) + own_length(request.backend) + if (
        request.backend is TcgRecovery) {
            8int
        } else {
            12
        },
        runner::backend_arguments(request.backend).len() == own_length(request.backend),
        forall|i: int|
            0 <= i < command.arguments@.len() ==> #[trigger] argument(command, i)
                == runner::planned_arguments(request)[i],
        request.backend is Native ==> request.host is Local,
{
    let all = text::texts(command.arguments@);
    assert(all == runner::planned_arguments(request));
    assert(all.len() == command.arguments@.len());
    assert forall|i: int| 0 <= i < command.arguments@.len() implies #[trigger] argument(command, i)
        == runner::planned_arguments(request)[i] by {
        assert(all[i] == argument(command, i));
    }
}

proof fn lemma_usable(path: RunnerPath)
    ensures
        runner::usable_path(path) == usable(path),
{
    if let Some(written) = path.text {
        lemma_no_nul(written@);
    }
}

proof fn lemma_no_nul(written: Seq<char>)
    ensures
        written.contains('\0') == !(forall|i: int| 0 <= i < written.len() ==> written[i] != '\0'),
{
    if written.contains('\0') {
        let i = written.index_of('\0');
        assert(written[i] == '\0');
    }
}

proof fn lemma_all_usable(request: RunnerRequest)
    ensures
        forall|path: RunnerPath| #[trigger] runner::usable_path(path) == usable(path),
        request.host matches RunnerHost::Wsl { distribution, .. } ==> distribution@.contains('\0')
            == !(forall|i: int| 0 <= i < distribution@.len() ==> distribution@[i] != '\0'),
{
    assert forall|path: RunnerPath| #[trigger] runner::usable_path(path) == usable(path) by {
        lemma_usable(path);
    }
    if let RunnerHost::Wsl { distribution, .. } = request.host {
        lemma_no_nul(distribution@);
    }
}

} // verus!
