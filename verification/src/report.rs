//! Evidence evaluation: what a worker report does and does not prove.
//!
//! A completed worker process is a stopped host process, not a running VM.
//! Guest execution, target match, input integrity, guest termination and the
//! kernel and userspace markers are judged separately; a zero exit code or a
//! lone boolean in the report is never enough.
use vstd::prelude::*;

use crate::guest::GuestState;
use crate::json;
use crate::json::{Json, JsonTree};
use crate::runner::{RunnerBackend, RunnerPath, RunnerRequest};

verus! {

/// Protocol progress is evidence of individual stages, never a boot verdict.
#[derive(Debug, Clone, Copy, PartialEq, Eq, Structural)]
pub struct RecoveryProgress {
    pub dfu_upload_completed: bool,
    pub ibec_endpoint_advertised: bool,
    pub stage2_banner_observed: bool,
    pub stage2_prompt_observed: bool,
    pub restore_sequence_sent: bool,
    pub restore_role_step_count: u32,
    pub bootx_acknowledged: bool,
    pub firmware_panic_observed: bool,
}

/// What one run of a worker amounts to.
#[derive(Debug, PartialEq, Eq)]
pub struct RunOutcome {
    pub schema: String,
    pub runner_pid: u32,
    pub runner_exit_code: Option<i32>,
    pub runner_completed: bool,
    pub engine: String,
    pub guest_runtime_started: bool,
    pub guest_process_terminated: bool,
    pub xnu_executed: bool,
    pub macos_userspace_reached: bool,
    pub guest_target_match: bool,
    pub input_integrity: bool,
    pub macos_boot_verified: bool,
    pub installation_verified: bool,
    pub graphics_acceleration_verified: bool,
    pub recovery_progress: Option<RecoveryProgress>,
    pub stdout_sha256: String,
    pub report: Option<Json>,
    pub failure: Option<String>,
}

/// What a report is judged to prove.
pub struct Verdict {
    pub runtime: bool,
    pub terminated: bool,
    pub xnu: bool,
    pub userspace: bool,
    pub target: bool,
    pub intact: bool,
    pub verified: bool,
    pub progress: Option<RecoveryProgress>,
    pub failure: Option<Seq<char>>,
}

/// No stage reached.
pub open spec fn no_progress() -> RecoveryProgress {
    RecoveryProgress {
        dfu_upload_completed: false,
        ibec_endpoint_advertised: false,
        stage2_banner_observed: false,
        stage2_prompt_observed: false,
        restore_sequence_sent: false,
        restore_role_step_count: 0,
        bootx_acknowledged: false,
        firmware_panic_observed: false,
    }
}

/// Whether `marker` is a kernel banner, of the given major version if any.
pub open spec fn kernel_marker(marker: JsonTree, major: Option<u64>) -> bool {
    &&& marker.at("marker"@).is_text("Darwin Kernel Version"@) || marker.at("marker"@).is_text(
        "Darwin Kernel"@,
    )
    &&& major matches Some(major) ==> marker.at("kernel_major"@).is_number(major as int)
}

/// Whether `marker` is a sign of macOS userspace.
pub open spec fn userspace_marker(marker: JsonTree) -> bool {
    marker.at("marker"@).is_text("launchd:"@) || marker.at("marker"@).is_text("launchd "@)
        || marker.at("marker"@).is_text("loginwindow"@) || marker.at("marker"@).is_text(
        "WindowServer"@,
    )
}

/// Whether a kernel banner was seen at the given byte of the serial log.
pub open spec fn kernel_seen_at(markers: JsonTree, major: Option<u64>, offset: u64) -> bool {
    exists|i: int|
        0 <= i < markers.at("xnu"@).items().len() && kernel_marker(
            #[trigger] markers.at("xnu"@).items()[i],
            major,
        ) && markers.at("xnu"@).items()[i].at("byte_offset"@) == JsonTree::Unsigned(offset)
}

/// Whether a sign of userspace was seen at the given byte of the serial log.
pub open spec fn userspace_seen_at(markers: JsonTree, offset: u64) -> bool {
    exists|i: int|
        0 <= i < markers.at("userspace"@).items().len() && userspace_marker(
            #[trigger] markers.at("userspace"@).items()[i],
        ) && markers.at("userspace"@).items()[i].at("byte_offset"@) == JsonTree::Unsigned(offset)
}

/// Whether a kernel banner was seen anywhere.
pub open spec fn kernel_seen(markers: JsonTree, major: Option<u64>) -> bool {
    exists|offset: u64| kernel_seen_at(markers, major, offset)
}

/// Whether userspace was seen after a kernel banner.
pub open spec fn userspace_follows_kernel(markers: JsonTree, major: Option<u64>) -> bool {
    exists|kernel: u64, user: u64|
        kernel < user && #[trigger] kernel_seen_at(markers, major, kernel)
            && #[trigger] userspace_seen_at(markers, user)
}

/// The document to judge: null where the worker returned none.
pub open spec fn judged(parsed: Result<JsonTree, Seq<char>>) -> JsonTree {
    match parsed {
        Ok(tree) => tree,
        Err(_) => JsonTree::Null,
    }
}

/// The first of two texts that is there.
pub open spec fn either_text(first: Option<Seq<char>>, second: Option<Seq<char>>) -> Option<
    Seq<char>,
> {
    match first {
        Some(_) => first,
        None => second,
    }
}

/// Whether report `r` answers `request`.
pub open spec fn worker_identity(request: RunnerRequest, r: JsonTree) -> bool {
    &&& r.at("schema"@).is_text(request.backend.schema_name())
    &&& r.at("engine"@).is_text(request.backend.engine_name())
    &&& r.at("target_major"@).is_number(request.target_major as int)
}

/// Whether the guest of this very backend was started. The flag of one
/// backend never speaks for the other.
pub open spec fn worker_runtime(request: RunnerRequest, r: JsonTree) -> bool {
    &&& worker_identity(request, r)
    &&& match request.backend {
        RunnerBackend::Native { .. } => r.at("native_runtime_started"@).is_true(),
        _ => r.at("tcg_runtime_started"@).is_true(),
    }
}

/// Whether the guest process is known to have ended.
pub open spec fn worker_terminated(request: RunnerRequest, r: JsonTree) -> bool {
    &&& worker_runtime(request, r)
    &&& r.at("returncode"@).as_signed() is Some
    &&& r.at("termination"@) matches JsonTree::Text(cause)
    &&& cause.len() > 0
}

/// Whether the kernel is shown to have run.
pub open spec fn worker_xnu(request: RunnerRequest, r: JsonTree) -> bool {
    &&& worker_runtime(request, r)
    &&& r.at("xnu_executed"@).is_true()
    &&& kernel_seen(r.at("observed_markers"@), None)
}

/// Whether userspace is shown to have run, after the kernel.
pub open spec fn worker_userspace(request: RunnerRequest, r: JsonTree) -> bool {
    &&& worker_runtime(request, r)
    &&& r.at("macos_userspace_reached"@).is_true()
    &&& userspace_follows_kernel(r.at("observed_markers"@), None)
}

/// Whether the guest is shown to be of the requested major version.
pub open spec fn worker_target(request: RunnerRequest, r: JsonTree) -> bool {
    &&& worker_identity(request, r)
    &&& r.at("guest_target_match"@).is_true()
    &&& r.at("guest_kernel_major"@).is_number(request.target_major as int)
    &&& kernel_seen(r.at("observed_markers"@), Some(request.target_major as u64))
}

/// Whether the inputs are shown to be untouched.
pub open spec fn worker_intact(request: RunnerRequest, r: JsonTree) -> bool {
    &&& worker_identity(request, r)
    &&& r.at("input_integrity"@).is_true()
    &&& !r.at("guest_inputs_modified"@).is_true()
}

/// Whether the report proves that macOS booted.
pub open spec fn worker_verified(request: RunnerRequest, exit: Option<i32>, r: JsonTree) -> bool {
    &&& exit == Some(0i32)
    &&& worker_terminated(request, r)
    &&& worker_xnu(request, r)
    &&& worker_userspace(request, r)
    &&& worker_target(request, r)
    &&& worker_intact(request, r)
    &&& r.at("macos_boot_verified"@).is_true()
    &&& r.at("error"@) is Null
}

/// Why a well-formed report proves no boot.
pub open spec fn worker_failure(request: RunnerRequest, r: JsonTree) -> Seq<char> {
    match either_text(r.at("error"@).text(), r.at("blocker"@).text()) {
        Some(reason) => reason,
        None => if !worker_identity(request, r) {
            "worker report has no matching backend/target receipt"@
        } else if !worker_runtime(request, r) {
            "guest runtime was not started"@
        } else if !worker_terminated(request, r) {
            "guest process termination is unconfirmed"@
        } else if !worker_intact(request, r) {
            "original input integrity is unconfirmed"@
        } else {
            "target-matching XNU/userspace boot evidence is incomplete"@
        },
    }
}

/// What the report of a native or plain emulated run proves.
pub open spec fn worker_verdict(
    request: RunnerRequest,
    exit: Option<i32>,
    parsed: Result<JsonTree, Seq<char>>,
) -> Verdict {
    let r = judged(parsed);
    Verdict {
        runtime: worker_runtime(request, r),
        terminated: worker_terminated(request, r),
        xnu: worker_xnu(request, r),
        userspace: worker_userspace(request, r),
        target: worker_target(request, r),
        intact: worker_intact(request, r),
        verified: worker_verified(request, exit, r),
        progress: None,
        failure: if worker_verified(request, exit, r) {
            None
        } else {
            match parsed {
                Err(error) => Some(error),
                Ok(_) => Some(worker_failure(request, r)),
            }
        },
    }
}

/// The launch report inside a recovery receipt.
pub open spec fn launch_report(e: JsonTree) -> JsonTree {
    e.at("launch_report"@).at("raw"@)
}

/// The text of a path, if it has one.
pub open spec fn path_text(path: RunnerPath) -> Option<Seq<char>> {
    match path.text {
        Some(text) => Some(text@),
        None => None,
    }
}

/// The absolute output path that a recovery receipt names.
pub open spec fn canonical_output(e: JsonTree) -> Option<Seq<char>> {
    match e.at("output"@) {
        JsonTree::Text(path) => if path.len() > 0 && path[0] == '/' && !path.contains('\0') {
            Some(path)
        } else {
            None
        },
        _ => None,
    }
}

/// Whether receipt `e` answers `request`.
pub open spec fn recovery_identity(request: RunnerRequest, e: JsonTree) -> bool {
    &&& e.at("schema"@).is_text("nextcore.recovery-supervisor/1"@)
    &&& e.at("target_major"@).is_number(request.target_major as int)
    &&& e.at("requested_output"@).text() == path_text(request.output)
    &&& canonical_output(e) is Some
}

/// Whether the launch report inside the receipt belongs to it.
pub open spec fn recovery_launch_identity(request: RunnerRequest, e: JsonTree) -> bool {
    let raw = launch_report(e);
    &&& recovery_identity(request, e)
    &&& e.at("launch_report"@).at("raw_schema"@).is_text("26x86.vmapple-gui/1"@)
    &&& e.at("launch_report"@).at("identity_valid"@).is_true()
    &&& raw.at("schema"@).is_text("26x86.vmapple-gui/1"@)
    &&& raw.at("target_major"@).is_number(request.target_major as int)
    &&& raw.at("output"@).text() == canonical_output(e)
    &&& raw.at("machine_type"@).is_text("iBoot(AArch64)"@)
    &&& raw.at("personality"@).is_text("iBoot"@)
    &&& raw.at("guest_os"@).is_text("macOS"@)
    &&& raw.at("boot_mode"@).is_text("recovery"@)
}

/// A process number, which is above zero and fits in 32 bits.
pub open spec fn process_number(node: JsonTree) -> Option<u64> {
    match node {
        JsonTree::Unsigned(pid) => if 0 < pid <= u32::MAX {
            Some(pid)
        } else {
            None
        },
        _ => None,
    }
}

/// Whether exactly one listed process has number `pid`, and that one belongs
/// to `session` and has a start time. Two entries for one number would mean
/// that the number was reused.
pub open spec fn sole_process(processes: Seq<JsonTree>, pid: u64, session: u64) -> bool {
    exists|i: int|
        0 <= i < processes.len() && #[trigger] processes[i].at("pid"@).is_number(pid as int)
            && processes[i].at("session"@).is_number(session as int) && (processes[i].at(
            "starttime"@,
        ) matches JsonTree::Unsigned(time) && time > 0) && (forall|j: int|
            0 <= j < processes.len() && j != i ==> !(#[trigger] processes[j].at(
                "pid"@,
            ).is_number(pid as int)))
}

/// Whether the emulator of this run was seen under the worker of this run.
pub open spec fn emulator_observed(e: JsonTree) -> bool {
    match (process_number(e.at("worker"@).at("pid"@)), process_number(launch_report(e).at("pid"@))) {
        (Some(worker), Some(emulator)) => {
            &&& worker != emulator
            &&& e.at("worker"@).at("process_inventory_complete"@).is_true()
            &&& e.at("launch_report"@).at("runtime_pid_observed"@).is_true()
            &&& sole_process(e.at("worker"@).at("observed_processes"@).items(), emulator, worker)
        },
        _ => false,
    }
}

/// Whether the guest is shown to have been started.
pub open spec fn recovery_runtime(request: RunnerRequest, e: JsonTree) -> bool {
    &&& recovery_launch_identity(request, e)
    &&& launch_report(e).at("runtime_started"@).is_true()
    &&& emulator_observed(e)
}

/// Whether no guest process is left behind.
pub open spec fn recovery_cleanup(request: RunnerRequest, e: JsonTree) -> bool {
    &&& recovery_identity(request, e)
    &&& e.at("cleanup"@).at("complete"@).is_true()
    &&& e.at("cleanup"@).at("leader_reaped"@).is_true()
    &&& e.at("cleanup"@).at("remaining_pids"@) matches JsonTree::Array(left)
    &&& left.len() == 0
}

/// Whether the inputs are shown to be untouched.
pub open spec fn recovery_intact(request: RunnerRequest, e: JsonTree) -> bool {
    &&& recovery_identity(request, e)
    &&& e.at("input_integrity"@).at("unchanged"@).is_true()
}

/// Whether the restore chain uploaded the given component whole.
pub open spec fn role_uploaded(raw: JsonTree, role: Seq<char>) -> bool {
    exists|i: int|
        0 <= i < raw.at("restore_chain"@).at("steps"@).items().len() && (#[trigger] raw.at(
            "restore_chain"@,
        ).at("steps"@).items()[i]).at("role"@).is_text(role) && raw.at("restore_chain"@).at(
            "steps"@,
        ).items()[i].at("upload"@).at("transfer_complete"@).is_true()
}

/// One for a component that was uploaded whole, else zero.
pub open spec fn role_count(raw: JsonTree, role: Seq<char>) -> int {
    if role_uploaded(raw, role) {
        1
    } else {
        0
    }
}

/// The stages that a launch report shows.
pub open spec fn shown_progress(raw: JsonTree) -> RecoveryProgress {
    RecoveryProgress {
        dfu_upload_completed: raw.at("dfu_upload"@).at("transfer_complete"@).is_true(),
        ibec_endpoint_advertised: raw.at("transition"@).at("state"@).is_text("ibec-ready"@),
        stage2_banner_observed: raw.at("stage2"@).at("stage2_serial_started"@).is_true() && raw.at(
            "stage2"@,
        ).at("stage2_serial_start_byte_offset"@) is Unsigned,
        stage2_prompt_observed: raw.at("stage2"@).at("observed"@).is_true() && raw.at("stage2"@).at(
            "byte_offset"@,
        ) is Unsigned,
        restore_sequence_sent: raw.at("restore_chain"@).at("sequence_sent"@).is_true() && raw.at(
            "restore_chain"@,
        ).at("input_integrity"@).is_true() && role_uploaded(raw, "RestoreTrustCache"@)
            && role_uploaded(raw, "RestoreRamDisk"@) && role_uploaded(raw, "RestoreDeviceTree"@)
            && role_uploaded(raw, "RestoreKernelCache"@),
        restore_role_step_count: (role_count(raw, "RestoreTrustCache"@) + role_count(
            raw,
            "RestoreRamDisk"@,
        ) + role_count(raw, "RestoreDeviceTree"@) + role_count(raw, "RestoreKernelCache"@)
            + role_count(raw, "RestoreLogo"@)) as u32,
        bootx_acknowledged: raw.at("restore_chain"@).at("bootx_acknowledged"@).is_true(),
        firmware_panic_observed: raw.at("guest_panic"@).at("observed"@).is_true() || raw.at(
            "stage2"@,
        ).at("panic_observed"@).is_true() || raw.at("restore_chain"@).at(
            "post_bootx_panic"@,
        ).is_true(),
    }
}

/// The stages that count: none of a guest that is not shown to have run.
pub open spec fn recovery_progress(request: RunnerRequest, e: JsonTree) -> RecoveryProgress {
    if recovery_runtime(request, e) {
        shown_progress(launch_report(e))
    } else {
        no_progress()
    }
}

/// The one observation that all claims on the kernel must come from: nested
/// in the launch report, or the launch report itself.
pub open spec fn observation(e: JsonTree) -> JsonTree {
    let raw = launch_report(e);
    if raw.at("observation"@) is Object {
        raw.at("observation"@)
    } else {
        raw
    }
}

/// Whether the kernel is shown to have run.
pub open spec fn recovery_xnu(request: RunnerRequest, e: JsonTree) -> bool {
    &&& recovery_runtime(request, e)
    &&& kernel_seen(observation(e).at("observed_markers"@), Some(request.target_major as u64))
    &&& launch_report(e).at("xnu_executed"@).is_true()
    &&& observation(e).at("xnu_executed"@).is_true()
    &&& e.at("boot"@).at("xnu_executed"@).is_true()
}

/// Whether userspace is shown to have run, after the kernel.
pub open spec fn recovery_userspace(request: RunnerRequest, e: JsonTree) -> bool {
    &&& recovery_xnu(request, e)
    &&& userspace_follows_kernel(
        observation(e).at("observed_markers"@),
        Some(request.target_major as u64),
    )
    &&& observation(e).at("macos_userspace_reached"@).is_true()
    &&& e.at("boot"@).at("userspace"@).is_true()
}

/// Whether the guest is shown to be of the requested major version.
pub open spec fn recovery_target(request: RunnerRequest, e: JsonTree) -> bool {
    let raw = launch_report(e);
    let major = request.target_major as int;
    &&& recovery_xnu(request, e)
    &&& raw.at("guest_kernel_major"@).is_number(major)
    &&& observation(e).at("guest_kernel_major"@).is_number(major)
    &&& e.at("boot"@).at("guest_kernel_major"@).is_number(major)
    &&& raw.at("guest_target_match"@).is_true()
    &&& observation(e).at("guest_target_match"@).is_true()
    &&& e.at("boot"@).at("target_match"@).is_true()
}

/// Whether the supervisor saw its worker through to a clean end.
pub open spec fn recovery_complete(e: JsonTree) -> bool {
    &&& e.at("launch_report"@).at("complete"@).is_true()
    &&& e.at("worker"@).at("completed"@).is_true()
    &&& e.at("worker"@).at("returncode"@).as_signed() == Some(0int)
}

/// Whether the run was neither cancelled nor out of time.
pub open spec fn recovery_uninterrupted(e: JsonTree) -> bool {
    &&& e.at("deadline"@).at("exceeded"@).is_false()
    &&& e.at("cancel"@).at("requested"@).is_false()
}

/// Whether the handoff record belongs to this run and claims the boot.
pub open spec fn handoff_claimed(request: RunnerRequest, handoff: JsonTree) -> bool {
    &&& handoff.at("schema"@).is_text("26x86.iboot-xnu-handoff/1"@)
    &&& handoff.at("valid"@).is_true()
    &&& handoff.at("mode"@).is_text("recovery"@)
    &&& handoff.at("target_major"@).is_number(request.target_major as int)
    &&& handoff.at("claims"@).at("xnu_executed"@).is_true()
    &&& handoff.at("claims"@).at("macos_userspace_reached"@).is_true()
    &&& handoff.at("claims"@).at("macos_boot_verified"@).is_true()
}

/// Whether the second boot stage came before every kernel banner.
pub open spec fn stage2_precedes_kernel(request: RunnerRequest, e: JsonTree) -> bool {
    let markers = observation(e).at("observed_markers"@);
    let major = Some(request.target_major as u64);
    &&& launch_report(e).at("stage2"@).at("byte_offset"@) matches JsonTree::Unsigned(stage2)
    &&& kernel_seen(markers, major)
    &&& forall|kernel: u64| #[trigger] kernel_seen_at(markers, major, kernel) ==> stage2 < kernel
}

/// Whether the protocol went through every stage that a boot needs.
pub open spec fn stages_passed(progress: RecoveryProgress) -> bool {
    &&& progress.dfu_upload_completed
    &&& progress.ibec_endpoint_advertised
    &&& progress.stage2_prompt_observed
    &&& progress.restore_sequence_sent
    &&& progress.bootx_acknowledged
    &&& !progress.firmware_panic_observed
}

/// Whether the receipt proves that macOS booted.
pub open spec fn recovery_verified(request: RunnerRequest, exit: Option<i32>, e: JsonTree) -> bool {
    let raw = launch_report(e);
    &&& exit == Some(0i32)
    &&& recovery_complete(e)
    &&& recovery_uninterrupted(e)
    &&& recovery_runtime(request, e)
    &&& recovery_cleanup(request, e)
    &&& recovery_intact(request, e)
    &&& recovery_xnu(request, e)
    &&& recovery_userspace(request, e)
    &&& recovery_target(request, e)
    &&& raw.at("input_integrity"@).is_true()
    &&& raw.at("error"@) is Null
    &&& e.at("error"@) is Null
    &&& raw.at("macos_boot_verified"@).is_true()
    &&& e.at("boot"@).at("macos_boot_verified"@).is_true()
    &&& handoff_claimed(request, raw.at("iboot_xnu_handoff"@))
    &&& stages_passed(recovery_progress(request, e))
    &&& stage2_precedes_kernel(request, e)
}

/// Why a well-formed receipt proves no boot.
pub open spec fn recovery_failure(request: RunnerRequest, e: JsonTree) -> Seq<char> {
    let raw = launch_report(e);
    if !recovery_launch_identity(request, e) {
        "recovery receipt has no matching supervisor/launch identity"@
    } else if !recovery_runtime(request, e) {
        "recovery QEMU process identity was not observed in this run"@
    } else if !recovery_cleanup(request, e) {
        "Linux guest process cleanup is unconfirmed"@
    } else if !recovery_intact(request, e) {
        "original recovery input integrity is unconfirmed"@
    } else if !recovery_uninterrupted(e) {
        "recovery was cancelled or exceeded its deadline"@
    } else {
        match either_text(
            either_text(e.at("error"@).text(), raw.at("error"@).text()),
            either_text(
                raw.at("transition_blocker"@).text(),
                raw.at("golden_gate_installation"@).at("blocker"@).text(),
            ),
        ) {
            Some(reason) => reason,
            None =>
                "recovery completed-unverified: target-matching XNU/userspace evidence is incomplete"@,
        }
    }
}

/// What the receipt of a recovery run proves.
pub open spec fn recovery_verdict(
    request: RunnerRequest,
    exit: Option<i32>,
    parsed: Result<JsonTree, Seq<char>>,
) -> Verdict {
    let e = judged(parsed);
    Verdict {
        runtime: recovery_runtime(request, e),
        terminated: recovery_runtime(request, e) && recovery_cleanup(request, e),
        xnu: recovery_xnu(request, e),
        userspace: recovery_userspace(request, e),
        target: recovery_target(request, e),
        intact: recovery_intact(request, e),
        verified: recovery_verified(request, exit, e),
        progress: Some(recovery_progress(request, e)),
        failure: if recovery_verified(request, exit, e) {
            None
        } else {
            match parsed {
                Err(error) => Some(error),
                Ok(_) => Some(recovery_failure(request, e)),
            }
        },
    }
}

/// What a report proves of the run it came from.
pub open spec fn report_verdict(
    request: RunnerRequest,
    exit: Option<i32>,
    parsed: Result<JsonTree, Seq<char>>,
) -> Verdict {
    if request.backend is TcgRecovery {
        recovery_verdict(request, exit, parsed)
    } else {
        worker_verdict(request, exit, parsed)
    }
}

/// What an outcome claims.
pub open spec fn claims(outcome: RunOutcome) -> Verdict {
    Verdict {
        runtime: outcome.guest_runtime_started,
        terminated: outcome.guest_process_terminated,
        xnu: outcome.xnu_executed,
        userspace: outcome.macos_userspace_reached,
        target: outcome.guest_target_match,
        intact: outcome.input_integrity,
        verified: outcome.macos_boot_verified,
        progress: outcome.recovery_progress,
        failure: match outcome.failure {
            Some(reason) => Some(reason@),
            None => None,
        },
    }
}

/// Whether `outcome` records a finished run of `request` that ended with
/// `exit`, and carries the report as it was parsed. Neither an installation
/// nor accelerated graphics is ever claimed.
pub open spec fn records(
    outcome: RunOutcome,
    request: RunnerRequest,
    exit: Option<i32>,
    parsed: Result<JsonTree, Seq<char>>,
) -> bool {
    &&& outcome.schema@ == "nextcore.apls-host-run/1"@
    &&& outcome.runner_exit_code == exit
    &&& outcome.runner_completed
    &&& outcome.engine@ == request.backend.engine_name()
    &&& !outcome.installation_verified
    &&& !outcome.graphics_acceleration_verified
    &&& match parsed {
        Ok(tree) => outcome.report matches Some(report) && json::json_tree(report) == tree,
        Err(_) => outcome.report is None,
    }
}

/// Finds the first place of the serial log that shows a kernel banner.
fn first_kernel_offset(markers: Option<&Json>, major: Option<u64>) -> (first: Option<u64>)
    ensures
        match first {
            Some(offset) => kernel_seen_at(json::place(markers), major, offset) && forall|other: u64|
                kernel_seen_at(json::place(markers), major, other) ==> offset <= other,
            None => !kernel_seen(json::place(markers), major),
        },
{
    let ghost items = json::place(markers).at("xnu"@).items();
    let list: Option<&Vec<Json>> = json::as_array(json::member(markers, "xnu"));
    let mut first: Option<u64> = None;
    if let Some(list) = list {
        let mut i: usize = 0;
        while i < list.len()
            invariant
                i <= list@.len(),
                list@.len() == items.len(),
                items == json::place(markers).at("xnu"@).items(),
                forall|k: int| 0 <= k < list@.len() ==> json::json_tree(#[trigger] list@[k]) == items[k],
                match first {
                    Some(offset) => kernel_seen_at(json::place(markers), major, offset),
                    None => true,
                },
                forall|k: int|
                    0 <= k < i && kernel_marker(#[trigger] items[k], major) && items[k].at(
                        "byte_offset"@,
                    ) is Unsigned ==> (first matches Some(least) && least <= items[k].at(
                        "byte_offset"@,
                    )->Unsigned_0),
            decreases list@.len() - i,
        {
            let marker: Option<&Json> = Some(&list[i]);
            assert(json::place(marker) == items[i as int]);
            let name: Option<&Json> = json::member(marker, "marker");
            let banner: bool = json::is_text(name, "Darwin Kernel Version") || json::is_text(
                name,
                "Darwin Kernel",
            );
            let wanted: bool = match major {
                Some(major) => json::is_number(json::member(marker, "kernel_major"), major),
                None => true,
            };
            assert((banner && wanted) == kernel_marker(items[i as int], major));
            if banner && wanted {
                if let Some(offset) = json::as_unsigned(json::member(marker, "byte_offset")) {
                    assert(kernel_seen_at(json::place(markers), major, offset));
                    first = match first {
                        Some(least) => if offset < least {
                            Some(offset)
                        } else {
                            Some(least)
                        },
                        None => Some(offset),
                    };
                }
            }
            i = i + 1;
        }
    }
    first
}

/// Tells whether userspace was seen after the given byte of the serial log.
fn userspace_seen_after(markers: Option<&Json>, kernel: u64) -> (seen: bool)
    ensures
        seen == exists|user: u64|
            kernel < user && #[trigger] userspace_seen_at(json::place(markers), user),
{
    let ghost items = json::place(markers).at("userspace"@).items();
    if let Some(list) = json::as_array(json::member(markers, "userspace")) {
        let mut i: usize = 0;
        while i < list.len()
            invariant
                i <= list@.len(),
                list@.len() == items.len(),
                items == json::place(markers).at("userspace"@).items(),
                forall|k: int| 0 <= k < list@.len() ==> json::json_tree(#[trigger] list@[k]) == items[k],
                forall|k: int|
                    0 <= k < i && userspace_marker(#[trigger] items[k]) && items[k].at(
                        "byte_offset"@,
                    ) is Unsigned ==> items[k].at("byte_offset"@)->Unsigned_0 <= kernel,
            decreases list@.len() - i,
        {
            let marker: Option<&Json> = Some(&list[i]);
            assert(json::place(marker) == items[i as int]);
            let name: Option<&Json> = json::member(marker, "marker");
            if json::is_text(name, "launchd:") || json::is_text(name, "launchd ")
                || json::is_text(name, "loginwindow") || json::is_text(name, "WindowServer") {
                if let Some(offset) = json::as_unsigned(json::member(marker, "byte_offset")) {
                    if offset > kernel {
                        assert(userspace_seen_at(json::place(markers), offset));
                        return true;
                    }
                }
            }
            i = i + 1;
        }
    }
    false
}

/// The reason for which a well-formed report proves no boot.
fn worker_failure_text(
    r: Option<&Json>,
    identity: bool,
    runtime: bool,
    terminated: bool,
    intact: bool,
    request: &RunnerRequest,
) -> (reason: String)
    requires
        identity == worker_identity(*request, json::place(r)),
        runtime == worker_runtime(*request, json::place(r)),
        terminated == worker_terminated(*request, json::place(r)),
        intact == worker_intact(*request, json::place(r)),
    ensures
        reason@ == worker_failure(*request, json::place(r)),
{
    if let Some(error) = json::as_text(json::member(r, "error")) {
        return error.as_str().to_owned();
    }
    if let Some(blocker) = json::as_text(json::member(r, "blocker")) {
        return blocker.as_str().to_owned();
    }
    let reason: &'static str = if !identity {
        "worker report has no matching backend/target receipt"
    } else if !runtime {
        "guest runtime was not started"
    } else if !terminated {
        "guest process termination is unconfirmed"
    } else if !intact {
        "original input integrity is unconfirmed"
    } else {
        "target-matching XNU/userspace boot evidence is incomplete"
    };
    reason.to_owned()
}

/// Judges the report of a native or plain emulated run.
fn evaluate_worker_report(
    request: &RunnerRequest,
    exit: Option<i32>,
    parsed: Result<Json, String>,
) -> (outcome: RunOutcome)
    requires
        !(request.backend is TcgRecovery),
    ensures
        claims(outcome) == worker_verdict(*request, exit, json::json_outcome(parsed)),
        records(outcome, *request, exit, json::json_outcome(parsed)),
        outcome.runner_pid == 0,
        outcome.stdout_sha256@.len() == 0,
{
    let ghost shape = json::json_outcome(parsed);
    let (report, parse_error): (Option<Json>, Option<String>) = match parsed {
        Ok(json) => (Some(json), None),
        Err(error) => (None, Some(error)),
    };
    let r: Option<&Json> = report.as_ref();
    assert(json::place(r) == judged(shape));
    let target_major: u64 = request.target_major as u64;
    let identity: bool = json::is_text(json::member(r, "schema"), request.backend.schema())
        && json::is_text(json::member(r, "engine"), request.backend.engine()) && json::is_number(
        json::member(r, "target_major"),
        target_major,
    );
    let started: bool = match &request.backend {
        RunnerBackend::Native { .. } => json::is_true(json::member(r, "native_runtime_started")),
        _ => json::is_true(json::member(r, "tcg_runtime_started")),
    };
    let runtime: bool = identity && started;
    let ended: bool = match json::as_text(json::member(r, "termination")) {
        Some(cause) => cause.as_str().unicode_len() > 0,
        None => false,
    };
    let terminated: bool = runtime && json::as_signed(json::member(r, "returncode")).is_some()
        && ended;
    let markers: Option<&Json> = json::member(r, "observed_markers");
    let kernel: Option<u64> = first_kernel_offset(markers, None);
    let user: bool = match kernel {
        Some(offset) => userspace_seen_after(markers, offset),
        None => false,
    };
    proof {
        let seen = json::place(markers);
        if user {
            assert(userspace_follows_kernel(seen, None));
        }
    }
    let xnu: bool = runtime && json::is_true(json::member(r, "xnu_executed")) && kernel.is_some();
    let userspace: bool = runtime && json::is_true(json::member(r, "macos_userspace_reached"))
        && user;
    let target: bool = identity && json::is_true(json::member(r, "guest_target_match"))
        && json::is_number(json::member(r, "guest_kernel_major"), target_major)
        && first_kernel_offset(markers, Some(target_major)).is_some();
    let intact: bool = identity && json::is_true(json::member(r, "input_integrity"))
        && !json::is_true(json::member(r, "guest_inputs_modified"));
    let clean_exit: bool = match exit {
        Some(code) => code == 0,
        None => false,
    };
    let verified: bool = clean_exit && terminated && xnu && userspace && target && intact
        && json::is_true(json::member(r, "macos_boot_verified")) && json::is_null(
        json::member(r, "error"),
    );
    let failure: Option<String> = if verified {
        None
    } else {
        match parse_error {
            Some(error) => Some(error),
            None => Some(
                worker_failure_text(r, identity, runtime, terminated, intact, request),
            ),
        }
    };
    RunOutcome {
        schema: "nextcore.apls-host-run/1".to_owned(),
        runner_pid: 0,
        runner_exit_code: exit,
        runner_completed: true,
        engine: request.backend.engine().to_owned(),
        guest_runtime_started: runtime,
        guest_process_terminated: terminated,
        xnu_executed: xnu,
        macos_userspace_reached: userspace,
        guest_target_match: target,
        input_integrity: intact,
        macos_boot_verified: verified,
        installation_verified: false,
        graphics_acceleration_verified: false,
        recovery_progress: None,
        stdout_sha256: String::new(),
        report,
        failure,
    }
}

impl RunOutcome {
    /// The state of the guest. The worker has been reaped by the time there is
    /// an outcome, so that the guest is never running.
    pub fn guest_state(&self) -> (state: GuestState)
        ensures
            match (state, self.failure) {
                (GuestState::Faulted(reason), Some(failure)) => reason@ == failure@,
                (GuestState::Stopped, None) => true,
                _ => false,
            },
    {
        match &self.failure {
            Some(reason) => GuestState::Faulted(reason.clone()),
            None => GuestState::Stopped,
        }
    }
}

impl Default for RecoveryProgress {
    fn default() -> (progress: Self)
        ensures
            progress == no_progress(),
    {
        RecoveryProgress {
            dfu_upload_completed: false,
            ibec_endpoint_advertised: false,
            stage2_banner_observed: false,
            stage2_prompt_observed: false,
            restore_sequence_sent: false,
            restore_role_step_count: 0,
            bootx_acknowledged: false,
            firmware_panic_observed: false,
        }
    }
}

/// Tells whether the text at a place is `wanted`, or there is no text and none
/// is wanted.
fn has_same_text(node: Option<&Json>, wanted: Option<&String>) -> (same: bool)
    ensures
        same == (json::place(node).text() == match wanted {
            Some(text) => Some(text@),
            None => None,
        }),
{
    match (json::as_text(node), wanted) {
        (Some(found), Some(text)) => crate::text::same_text(found.as_str(), text.as_str()),
        (None, None) => true,
        _ => false,
    }
}

/// The absolute output path that a recovery receipt names.
fn receipt_output<'a>(e: Option<&'a Json>) -> (path: Option<&'a String>)
    ensures
        match path {
            Some(path) => canonical_output(json::place(e)) == Some(path@),
            None => canonical_output(json::place(e)) is None,
        },
{
    match json::as_text(json::member(e, "output")) {
        Some(path) => {
            if path.as_str().unicode_len() > 0 && path.as_str().get_char(0) == '/'
                && !crate::text::has_char(path.as_str(), '\0') {
                Some(path)
            } else {
                None
            }
        },
        None => None,
    }
}

/// The process number at a place.
fn process_number_at(node: Option<&Json>) -> (number: Option<u64>)
    ensures
        number == process_number(json::place(node)),
{
    match json::as_unsigned(node) {
        Some(pid) => if pid > 0 && pid <= u32::MAX as u64 {
            Some(pid)
        } else {
            None
        },
        None => None,
    }
}

/// Tells whether exactly one listed process has number `pid`, belongs to
/// `session` and has a start time.
fn is_sole_process(processes: Option<&Json>, pid: u64, session: u64) -> (sole: bool)
    ensures
        sole == sole_process(json::place(processes).items(), pid, session),
{
    let ghost items = json::place(processes).items();
    if let Some(list) = json::as_array(processes) {
        let mut first: Option<usize> = None;
        let mut i: usize = 0;
        while i < list.len()
            invariant
                i <= list@.len(),
                list@.len() == items.len(),
                items == json::place(processes).items(),
                forall|k: int| 0 <= k < list@.len() ==> json::json_tree(#[trigger] list@[k]) == items[k],
                match first {
                    Some(at) => at < i && items[at as int].at("pid"@).is_number(pid as int),
                    None => true,
                },
                forall|k: int|
                    0 <= k < i && (#[trigger] items[k].at("pid"@).is_number(pid as int))
                        ==> first == Some(k as usize),
            decreases list@.len() - i,
        {
            let process: Option<&Json> = Some(&list[i]);
            assert(json::place(process) == items[i as int]);
            if json::is_number(json::member(process, "pid"), pid) {
                if first.is_some() {
                    return false;
                }
                first = Some(i);
            }
            i = i + 1;
        }
        if let Some(at) = first {
            let process: Option<&Json> = Some(&list[at]);
            assert(json::place(process) == items[at as int]);
            let started: bool = match json::as_unsigned(json::member(process, "starttime")) {
                Some(time) => time > 0,
                None => false,
            };
            let sole: bool = json::is_number(json::member(process, "session"), session) && started;
            assert(sole ==> sole_process(items, pid, session)) by {
                assert(items[at as int].at("pid"@).is_number(pid as int));
            }
            return sole;
        }
    }
    false
}

/// Tells whether the restore chain uploaded the given component whole.
fn is_role_uploaded(raw: Option<&Json>, role: &str) -> (uploaded: bool)
    ensures
        uploaded == role_uploaded(json::place(raw), role@),
{
    let ghost items = json::place(raw).at("restore_chain"@).at("steps"@).items();
    if let Some(list) = json::as_array(json::member(json::member(raw, "restore_chain"), "steps")) {
        let mut i: usize = 0;
        while i < list.len()
            invariant
                i <= list@.len(),
                list@.len() == items.len(),
                items == json::place(raw).at("restore_chain"@).at("steps"@).items(),
                forall|k: int| 0 <= k < list@.len() ==> json::json_tree(#[trigger] list@[k]) == items[k],
                forall|k: int|
                    0 <= k < i ==> !((#[trigger] items[k]).at("role"@).is_text(role@) && items[k].at(
                        "upload"@,
                    ).at("transfer_complete"@).is_true()),
            decreases list@.len() - i,
        {
            let step: Option<&Json> = Some(&list[i]);
            assert(json::place(step) == items[i as int]);
            if json::is_text(json::member(step, "role"), role) && json::is_true(
                json::member(json::member(step, "upload"), "transfer_complete"),
            ) {
                return true;
            }
            i = i + 1;
        }
    }
    false
}

/// One for `true`, zero for `false`.
fn one_if(yes: bool) -> (n: u32)
    ensures
        n == (if yes {
            1int
        } else {
            0int
        }),
{
    if yes {
        1
    } else {
        0
    }
}

/// Reads the stages that a launch report shows.
fn read_progress(raw: Option<&Json>) -> (progress: RecoveryProgress)
    ensures
        progress == shown_progress(json::place(raw)),
{
    let stage2: Option<&Json> = json::member(raw, "stage2");
    let chain: Option<&Json> = json::member(raw, "restore_chain");
    let trust_cache: bool = is_role_uploaded(raw, "RestoreTrustCache");
    let ram_disk: bool = is_role_uploaded(raw, "RestoreRamDisk");
    let device_tree: bool = is_role_uploaded(raw, "RestoreDeviceTree");
    let kernel_cache: bool = is_role_uploaded(raw, "RestoreKernelCache");
    let logo: bool = is_role_uploaded(raw, "RestoreLogo");
    RecoveryProgress {
        dfu_upload_completed: json::is_true(
            json::member(json::member(raw, "dfu_upload"), "transfer_complete"),
        ),
        ibec_endpoint_advertised: json::is_text(
            json::member(json::member(raw, "transition"), "state"),
            "ibec-ready",
        ),
        stage2_banner_observed: json::is_true(json::member(stage2, "stage2_serial_started"))
            && json::as_unsigned(json::member(stage2, "stage2_serial_start_byte_offset")).is_some(),
        stage2_prompt_observed: json::is_true(json::member(stage2, "observed"))
            && json::as_unsigned(json::member(stage2, "byte_offset")).is_some(),
        restore_sequence_sent: json::is_true(json::member(chain, "sequence_sent"))
            && json::is_true(json::member(chain, "input_integrity")) && trust_cache && ram_disk
            && device_tree && kernel_cache,
        restore_role_step_count: one_if(trust_cache) + one_if(ram_disk) + one_if(device_tree)
            + one_if(kernel_cache) + one_if(logo),
        bootx_acknowledged: json::is_true(json::member(chain, "bootx_acknowledged")),
        firmware_panic_observed: json::is_true(
            json::member(json::member(raw, "guest_panic"), "observed"),
        ) || json::is_true(json::member(stage2, "panic_observed")) || json::is_true(
            json::member(chain, "post_bootx_panic"),
        ),
    }
}

/// Tells whether a recovery receipt answers `request`.
fn has_recovery_identity(request: &RunnerRequest, e: Option<&Json>) -> (yes: bool)
    ensures
        yes == recovery_identity(*request, json::place(e)),
{
    json::is_text(json::member(e, "schema"), "nextcore.recovery-supervisor/1")
        && json::is_number(json::member(e, "target_major"), request.target_major as u64)
        && has_same_text(json::member(e, "requested_output"), request.output.text.as_ref())
        && receipt_output(e).is_some()
}

/// Tells whether the launch report inside a receipt belongs to it.
fn has_launch_identity(request: &RunnerRequest, e: Option<&Json>) -> (yes: bool)
    ensures
        yes == recovery_launch_identity(*request, json::place(e)),
{
    let launch: Option<&Json> = json::member(e, "launch_report");
    let raw: Option<&Json> = json::member(launch, "raw");
    has_recovery_identity(request, e) && json::is_text(
        json::member(launch, "raw_schema"),
        "26x86.vmapple-gui/1",
    ) && json::is_true(json::member(launch, "identity_valid")) && json::is_text(
        json::member(raw, "schema"),
        "26x86.vmapple-gui/1",
    ) && json::is_number(json::member(raw, "target_major"), request.target_major as u64)
        && has_same_text(json::member(raw, "output"), receipt_output(e)) && json::is_text(
        json::member(raw, "machine_type"),
        "iBoot(AArch64)",
    ) && json::is_text(json::member(raw, "personality"), "iBoot") && json::is_text(
        json::member(raw, "guest_os"),
        "macOS",
    ) && json::is_text(json::member(raw, "boot_mode"), "recovery")
}

/// Tells whether the emulator of this run was seen under its worker.
fn is_emulator_observed(e: Option<&Json>) -> (yes: bool)
    ensures
        yes == emulator_observed(json::place(e)),
{
    let worker: Option<&Json> = json::member(e, "worker");
    let launch: Option<&Json> = json::member(e, "launch_report");
    let raw: Option<&Json> = json::member(launch, "raw");
    match (
        process_number_at(json::member(worker, "pid")),
        process_number_at(json::member(raw, "pid")),
    ) {
        (Some(session), Some(pid)) => session != pid && json::is_true(
            json::member(worker, "process_inventory_complete"),
        ) && json::is_true(json::member(launch, "runtime_pid_observed")) && is_sole_process(
            json::member(worker, "observed_processes"),
            pid,
            session,
        ),
        _ => false,
    }
}

/// Tells whether no guest process is left behind.
fn is_cleaned_up(request: &RunnerRequest, e: Option<&Json>) -> (yes: bool)
    ensures
        yes == recovery_cleanup(*request, json::place(e)),
{
    let cleanup: Option<&Json> = json::member(e, "cleanup");
    let none_left: bool = match json::as_array(json::member(cleanup, "remaining_pids")) {
        Some(left) => left.len() == 0,
        None => false,
    };
    has_recovery_identity(request, e) && json::is_true(json::member(cleanup, "complete"))
        && json::is_true(json::member(cleanup, "leader_reaped")) && none_left
}

/// Tells whether the handoff record belongs to this run and claims the boot.
fn is_handoff_claimed(request: &RunnerRequest, handoff: Option<&Json>) -> (yes: bool)
    ensures
        yes == handoff_claimed(*request, json::place(handoff)),
{
    let claimed: Option<&Json> = json::member(handoff, "claims");
    json::is_text(json::member(handoff, "schema"), "26x86.iboot-xnu-handoff/1") && json::is_true(
        json::member(handoff, "valid"),
    ) && json::is_text(json::member(handoff, "mode"), "recovery") && json::is_number(
        json::member(handoff, "target_major"),
        request.target_major as u64,
    ) && json::is_true(json::member(claimed, "xnu_executed")) && json::is_true(
        json::member(claimed, "macos_userspace_reached"),
    ) && json::is_true(json::member(claimed, "macos_boot_verified"))
}

/// The reason for which a well-formed receipt proves no boot.
fn recovery_failure_text(
    request: &RunnerRequest,
    e: Option<&Json>,
    launch_identity: bool,
    runtime: bool,
    cleanup: bool,
    intact: bool,
    uninterrupted: bool,
) -> (reason: String)
    requires
        launch_identity == recovery_launch_identity(*request, json::place(e)),
        runtime == recovery_runtime(*request, json::place(e)),
        cleanup == recovery_cleanup(*request, json::place(e)),
        intact == recovery_intact(*request, json::place(e)),
        uninterrupted == recovery_uninterrupted(json::place(e)),
    ensures
        reason@ == recovery_failure(*request, json::place(e)),
{
    let raw: Option<&Json> = json::member(json::member(e, "launch_report"), "raw");
    if !launch_identity {
        return "recovery receipt has no matching supervisor/launch identity".to_owned();
    }
    if !runtime {
        return "recovery QEMU process identity was not observed in this run".to_owned();
    }
    if !cleanup {
        return "Linux guest process cleanup is unconfirmed".to_owned();
    }
    if !intact {
        return "original recovery input integrity is unconfirmed".to_owned();
    }
    if !uninterrupted {
        return "recovery was cancelled or exceeded its deadline".to_owned();
    }
    if let Some(error) = json::as_text(json::member(e, "error")) {
        return error.as_str().to_owned();
    }
    if let Some(error) = json::as_text(json::member(raw, "error")) {
        return error.as_str().to_owned();
    }
    if let Some(blocker) = json::as_text(json::member(raw, "transition_blocker")) {
        return blocker.as_str().to_owned();
    }
    if let Some(blocker) = json::as_text(
        json::member(json::member(raw, "golden_gate_installation"), "blocker"),
    ) {
        return blocker.as_str().to_owned();
    }
    "recovery completed-unverified: target-matching XNU/userspace evidence is incomplete".to_owned()
}

/// Judges the receipt of a recovery run. A supervisor receipt and the launch
/// report inside it are different documents; neither speaks for the other.
pub fn evaluate_recovery_report(
    request: &RunnerRequest,
    exit: Option<i32>,
    parsed: Result<Json, String>,
) -> (outcome: RunOutcome)
    ensures
        claims(outcome) == recovery_verdict(*request, exit, json::json_outcome(parsed)),
        records(outcome, *request, exit, json::json_outcome(parsed)),
        outcome.runner_pid == 0,
        outcome.stdout_sha256@.len() == 0,
{
    let ghost shape = json::json_outcome(parsed);
    let (report, parse_error): (Option<Json>, Option<String>) = match parsed {
        Ok(json) => (Some(json), None),
        Err(error) => (None, Some(error)),
    };
    let e: Option<&Json> = report.as_ref();
    assert(json::place(e) == judged(shape));
    let target_major: u64 = request.target_major as u64;
    let raw: Option<&Json> = json::member(json::member(e, "launch_report"), "raw");
    let worker: Option<&Json> = json::member(e, "worker");
    let boot: Option<&Json> = json::member(e, "boot");
    let identity: bool = has_recovery_identity(request, e);
    let launch_identity: bool = has_launch_identity(request, e);
    let runtime: bool = launch_identity && json::is_true(json::member(raw, "runtime_started"))
        && is_emulator_observed(e);
    let cleanup: bool = is_cleaned_up(request, e);
    let terminated: bool = runtime && cleanup;
    let intact: bool = identity && json::is_true(
        json::member(json::member(e, "input_integrity"), "unchanged"),
    );
    let progress: RecoveryProgress = if runtime {
        read_progress(raw)
    } else {
        RecoveryProgress::default()
    };
    let nested: Option<&Json> = json::member(raw, "observation");
    let observed: Option<&Json> = if json::is_object(nested) {
        nested
    } else {
        raw
    };
    let markers: Option<&Json> = json::member(observed, "observed_markers");
    let kernel: Option<u64> = first_kernel_offset(markers, Some(target_major));
    let user: bool = match kernel {
        Some(offset) => userspace_seen_after(markers, offset),
        None => false,
    };
    assert(user == userspace_follows_kernel(json::place(markers), Some(target_major)));
    let xnu: bool = runtime && kernel.is_some() && json::is_true(json::member(raw, "xnu_executed"))
        && json::is_true(json::member(observed, "xnu_executed")) && json::is_true(
        json::member(boot, "xnu_executed"),
    );
    let userspace: bool = xnu && user && json::is_true(
        json::member(observed, "macos_userspace_reached"),
    ) && json::is_true(json::member(boot, "userspace"));
    let target: bool = xnu && json::is_number(json::member(raw, "guest_kernel_major"), target_major)
        && json::is_number(json::member(observed, "guest_kernel_major"), target_major)
        && json::is_number(json::member(boot, "guest_kernel_major"), target_major)
        && json::is_true(json::member(raw, "guest_target_match")) && json::is_true(
        json::member(observed, "guest_target_match"),
    ) && json::is_true(json::member(boot, "target_match"));
    let clean_return: bool = match json::as_signed(json::member(worker, "returncode")) {
        Some(code) => code == 0,
        None => false,
    };
    let complete: bool = json::is_true(json::member(json::member(e, "launch_report"), "complete"))
        && json::is_true(json::member(worker, "completed")) && clean_return;
    let uninterrupted: bool = json::is_false(json::member(json::member(e, "deadline"), "exceeded"))
        && json::is_false(json::member(json::member(e, "cancel"), "requested"));
    let stage2_first: bool = match (
        json::as_unsigned(json::member(json::member(raw, "stage2"), "byte_offset")),
        kernel,
    ) {
        (Some(stage2), Some(offset)) => stage2 < offset,
        _ => false,
    };
    assert(stage2_first == stage2_precedes_kernel(*request, json::place(e)));
    let clean_exit: bool = match exit {
        Some(code) => code == 0,
        None => false,
    };
    let verified: bool = clean_exit && complete && uninterrupted && terminated && intact && xnu
        && userspace && target && json::is_true(json::member(raw, "input_integrity"))
        && json::is_null(json::member(raw, "error")) && json::is_null(json::member(e, "error"))
        && json::is_true(json::member(raw, "macos_boot_verified")) && json::is_true(
        json::member(boot, "macos_boot_verified"),
    ) && is_handoff_claimed(request, json::member(raw, "iboot_xnu_handoff"))
        && progress.dfu_upload_completed && progress.ibec_endpoint_advertised
        && progress.stage2_prompt_observed && progress.restore_sequence_sent
        && progress.bootx_acknowledged && !progress.firmware_panic_observed && stage2_first;
    let failure: Option<String> = if verified {
        None
    } else {
        match parse_error {
            Some(error) => Some(error),
            None => Some(
                recovery_failure_text(
                    request,
                    e,
                    launch_identity,
                    runtime,
                    cleanup,
                    intact,
                    uninterrupted,
                ),
            ),
        }
    };
    RunOutcome {
        schema: "nextcore.apls-host-run/1".to_owned(),
        runner_pid: 0,
        runner_exit_code: exit,
        runner_completed: true,
        engine: request.backend.engine().to_owned(),
        guest_runtime_started: runtime,
        guest_process_terminated: terminated,
        xnu_executed: xnu,
        macos_userspace_reached: userspace,
        guest_target_match: target,
        input_integrity: intact,
        macos_boot_verified: verified,
        installation_verified: false,
        graphics_acceleration_verified: false,
        recovery_progress: Some(progress),
        stdout_sha256: String::new(),
        report,
        failure,
    }
}

/// Judges what a worker returned: `parsed` is its report, or the reason for
/// which there is none.
pub fn evaluate_report(
    request: &RunnerRequest,
    exit: Option<i32>,
    parsed: Result<Json, String>,
) -> (outcome: RunOutcome)
    ensures
        claims(outcome) == report_verdict(*request, exit, json::json_outcome(parsed)),
        records(outcome, *request, exit, json::json_outcome(parsed)),
        outcome.runner_pid == 0,
        outcome.stdout_sha256@.len() == 0,
{
    if request.backend.is_recovery() {
        evaluate_recovery_report(request, exit, parsed)
    } else {
        evaluate_worker_report(request, exit, parsed)
    }
}

/// A verified boot rests on every piece of evidence: a clean exit, a guest
/// that started and ended, the kernel, userspace after it, the requested
/// version and untouched inputs.
pub proof fn law_verified_boot_needs_all_evidence(
    request: RunnerRequest,
    exit: Option<i32>,
    parsed: Result<JsonTree, Seq<char>>,
)
    ensures
        report_verdict(request, exit, parsed).verified ==> ({
            let verdict = report_verdict(request, exit, parsed);
            &&& exit == Some(0i32)
            &&& parsed is Ok
            &&& verdict.runtime
            &&& verdict.terminated
            &&& verdict.xnu
            &&& verdict.userspace
            &&& verdict.target
            &&& verdict.intact
        }),
{
    if parsed is Err {
        lemma_nothing_in_null(request);
    }
}

/// A failure is named exactly where no boot is verified.
pub proof fn law_failure_named_unless_verified(
    request: RunnerRequest,
    exit: Option<i32>,
    parsed: Result<JsonTree, Seq<char>>,
)
    ensures
        report_verdict(request, exit, parsed).failure is None <==> report_verdict(
            request,
            exit,
            parsed,
        ).verified,
{
}

/// A missing report answers no request.
proof fn lemma_nothing_in_null(request: RunnerRequest)
    ensures
        !worker_identity(request, JsonTree::Null),
        !recovery_identity(request, JsonTree::Null),
{
}

/// A worker that returned no readable report proves nothing, whatever its
/// exit code, and the reason for it is the failure.
pub proof fn law_unreadable_report_proves_nothing(
    request: RunnerRequest,
    exit: Option<i32>,
    error: Seq<char>,
)
    ensures
        ({
            let verdict = report_verdict(request, exit, Err(error));
            &&& !verdict.runtime && !verdict.terminated && !verdict.xnu && !verdict.userspace
            &&& !verdict.target && !verdict.intact && !verdict.verified
            &&& verdict.failure == Some(error)
            &&& verdict.progress == if request.backend is TcgRecovery {
                Some(no_progress())
            } else {
                None
            }
        }),
{
    lemma_nothing_in_null(request);
}

/// A report for another schema, engine or target proves nothing.
pub proof fn law_foreign_report_proves_nothing(
    request: RunnerRequest,
    exit: Option<i32>,
    report: JsonTree,
)
    requires
        request.backend is TcgRecovery ==> !recovery_identity(request, report),
        !(request.backend is TcgRecovery) ==> !worker_identity(request, report),
    ensures
        ({
            let verdict = report_verdict(request, exit, Ok(report));
            &&& !verdict.runtime && !verdict.terminated && !verdict.xnu && !verdict.userspace
            &&& !verdict.target && !verdict.intact && !verdict.verified
            &&& verdict.progress == if request.backend is TcgRecovery {
                Some(no_progress())
            } else {
                None
            }
        }),
{
}

/// Protocol stages alone prove no boot. Without a kernel banner of the
/// requested version in the one observation, neither the kernel nor a boot
/// is verified.
pub proof fn law_recovery_progress_is_no_boot(
    request: RunnerRequest,
    exit: Option<i32>,
    e: JsonTree,
)
    requires
        !kernel_seen(observation(e).at("observed_markers"@), Some(request.target_major as u64)),
    ensures
        ({
            let verdict = recovery_verdict(request, exit, Ok(e));
            !verdict.xnu && !verdict.userspace && !verdict.target && !verdict.verified
        }),
{
}

/// Flags alone prove no boot: without a kernel banner in the serial log, a
/// report shows neither the kernel nor userspace nor a boot, whatever its
/// flags and the exit code say.
pub proof fn law_flags_alone_prove_no_boot(
    request: RunnerRequest,
    exit: Option<i32>,
    r: JsonTree,
)
    requires
        !(request.backend is TcgRecovery),
        !kernel_seen(r.at("observed_markers"@), None),
    ensures
        ({
            let verdict = report_verdict(request, exit, Ok(r));
            !verdict.xnu && !verdict.userspace && !verdict.verified
        }),
{
}

/// No exit code but zero goes with a verified boot.
pub proof fn law_unclean_exit_denies_boot(
    request: RunnerRequest,
    exit: Option<i32>,
    parsed: Result<JsonTree, Seq<char>>,
)
    requires
        exit != Some(0i32),
    ensures
        !report_verdict(request, exit, parsed).verified,
{
}

/// A recovery run that was cancelled, ran out of time or panicked is no boot.
pub proof fn law_interrupted_recovery_is_no_boot(
    request: RunnerRequest,
    exit: Option<i32>,
    e: JsonTree,
)
    requires
        !recovery_uninterrupted(e) || recovery_progress(request, e).firmware_panic_observed,
    ensures
        !recovery_verdict(request, exit, Ok(e)).verified,
{
}

/// Userspace counts only after the kernel: where every sign of it comes
/// before every kernel banner, it is not reached.
pub proof fn law_userspace_before_kernel_does_not_count(
    request: RunnerRequest,
    exit: Option<i32>,
    r: JsonTree,
)
    requires
        !(request.backend is TcgRecovery),
        forall|kernel: u64, user: u64|
            #[trigger] kernel_seen_at(r.at("observed_markers"@), None, kernel)
                && #[trigger] userspace_seen_at(r.at("observed_markers"@), user) ==> user <= kernel,
    ensures
        !report_verdict(request, exit, Ok(r)).userspace,
        !report_verdict(request, exit, Ok(r)).verified,
{
}

} // verus!
