//! The judgement of a worker's report, in terms of the document it returned.
use vstd::prelude::*;

use crate::json;
use crate::json::{Json, JsonTree};
use crate::report;
use crate::report::{RecoveryProgress, RunOutcome};
use crate::runner::RunnerRequest;

verus! {

/// Whether the document `json`, returned by a worker that ended with `exit`,
/// was judged as `outcome`.
pub open spec fn judged(
    request: RunnerRequest,
    exit: Option<i32>,
    json: Json,
    outcome: RunOutcome,
) -> bool {
    call_ensures(report::evaluate_report, (&request, exit, Ok::<Json, String>(json)), outcome)
}

/// Whether the place holds the literal `true`.
pub open spec fn on(node: JsonTree) -> bool {
    node == JsonTree::Bool(true)
}

/// Whether the place holds this text.
pub open spec fn says(node: JsonTree, text: Seq<char>) -> bool {
    node == JsonTree::Text(text)
}

/// Whether the place holds this major version.
pub open spec fn major(node: JsonTree, version: u16) -> bool {
    node == JsonTree::Unsigned(version as u64)
}

/// Whether a marker is the banner of a Darwin kernel at this byte of the log.
pub open spec fn banner_at(marker: JsonTree, offset: u64) -> bool {
    &&& says(marker.at("marker"@), "Darwin Kernel Version"@) || says(
        marker.at("marker"@),
        "Darwin Kernel"@,
    )
    &&& marker.at("byte_offset"@) == JsonTree::Unsigned(offset)
}

/// Whether a marker is a sign of macOS userspace at this byte of the log.
pub open spec fn userspace_sign_at(marker: JsonTree, offset: u64) -> bool {
    let name = marker.at("marker"@);
    &&& says(name, "launchd:"@) || says(name, "launchd "@) || says(name, "loginwindow"@) || says(
        name,
        "WindowServer"@,
    )
    &&& marker.at("byte_offset"@) == JsonTree::Unsigned(offset)
}

/// The entries of a list; none where there is no list.
pub open spec fn entries(node: JsonTree) -> Seq<JsonTree> {
    match node {
        JsonTree::Array(list) => list,
        _ => Seq::empty(),
    }
}

/// Whether a worker report names schema, engine and target.
pub open spec fn stamped(
    r: JsonTree,
    schema: Seq<char>,
    engine: Seq<char>,
    version: u16,
) -> bool {
    says(r.at("schema"@), schema) && says(r.at("engine"@), engine) && major(
        r.at("target_major"@),
        version,
    )
}

/// Whether a worker report is stamped for the request's own backend.
pub open spec fn stamped_for(request: RunnerRequest, r: JsonTree) -> bool {
    if request.backend is Native {
        stamped(r, "26x86.macosvm-native/1"@, "macosvm"@, request.target_major)
    } else {
        stamped(r, "26x86.vmapple-tcg/1"@, "qemu-vmapple-tcg"@, request.target_major)
    }
}

/// The guest of a native run was started exactly where a report with the
/// native stamp says so under the native name, whatever it says of emulation.
pub proof fn law_native_start(
    request: RunnerRequest,
    exit: Option<i32>,
    json: Json,
    outcome: RunOutcome,
)
    requires
        judged(request, exit, json, outcome),
        request.backend is Native,
    ensures
        ({
            let r = json::json_tree(json);
            outcome.guest_runtime_started <==> stamped(
                r,
                "26x86.macosvm-native/1"@,
                "macosvm"@,
                request.target_major,
            ) && on(r.at("native_runtime_started"@))
        }),
{
}

/// The guest of an emulated run was started exactly where a report with the
/// emulator's stamp says so under the emulator's name, whatever it says of a
/// native run.
pub proof fn law_emulated_start(
    request: RunnerRequest,
    exit: Option<i32>,
    json: Json,
    outcome: RunOutcome,
)
    requires
        judged(request, exit, json, outcome),
        request.backend is Tcg,
    ensures
        ({
            let r = json::json_tree(json);
            outcome.guest_runtime_started <==> stamped(
                r,
                "26x86.vmapple-tcg/1"@,
                "qemu-vmapple-tcg"@,
                request.target_major,
            ) && on(r.at("tcg_runtime_started"@))
        }),
{
}

/// A guest that was started is known to have ended exactly where the report
/// has a whole exit code of 64 bits and a cause that is not empty.
pub proof fn law_worker_end(
    request: RunnerRequest,
    exit: Option<i32>,
    json: Json,
    outcome: RunOutcome,
)
    requires
        judged(request, exit, json, outcome),
        !(request.backend is TcgRecovery),
    ensures
        ({
            let r = json::json_tree(json);
            let whole = match r.at("returncode"@) {
                JsonTree::Unsigned(n) => n < 0x8000_0000_0000_0000,
                JsonTree::Negative(_) => true,
                _ => false,
            };
            let caused = match r.at("termination"@) {
                JsonTree::Text(cause) => cause.len() != 0,
                _ => false,
            };
            outcome.guest_process_terminated <==> outcome.guest_runtime_started && whole && caused
        }),
{
}

/// The kernel of a started guest is shown to have run exactly where the report
/// says that it did and the log has its banner somewhere.
pub proof fn law_worker_kernel(
    request: RunnerRequest,
    exit: Option<i32>,
    json: Json,
    outcome: RunOutcome,
)
    requires
        judged(request, exit, json, outcome),
        !(request.backend is TcgRecovery),
    ensures
        ({
            let r = json::json_tree(json);
            let log = entries(r.at("observed_markers"@).at("xnu"@));
            outcome.xnu_executed <==> outcome.guest_runtime_started && on(r.at("xnu_executed"@))
                && exists|i: int, offset: u64|
                0 <= i < log.len() && #[trigger] banner_at(log[i], offset)
        }),
{
    let r = json::json_tree(json);
    lemma_kernel_seen(r.at("observed_markers"@), None);
}

/// Userspace of a started guest is shown to have been reached exactly where
/// the report says so and the log has a sign of it after a kernel banner.
pub proof fn law_worker_userspace(
    request: RunnerRequest,
    exit: Option<i32>,
    json: Json,
    outcome: RunOutcome,
)
    requires
        judged(request, exit, json, outcome),
        !(request.backend is TcgRecovery),
    ensures
        ({
            let r = json::json_tree(json);
            let kernels = entries(r.at("observed_markers"@).at("xnu"@));
            let signs = entries(r.at("observed_markers"@).at("userspace"@));
            outcome.macos_userspace_reached <==> outcome.guest_runtime_started && on(
                r.at("macos_userspace_reached"@),
            ) && exists|i: int, j: int, first: u64, then_: u64|
                0 <= i < kernels.len() && 0 <= j < signs.len() && first < then_
                    && #[trigger] banner_at(kernels[i], first) && #[trigger] userspace_sign_at(
                    signs[j],
                    then_,
                )
        }),
{
    let r = json::json_tree(json);
    lemma_userspace_follows(r.at("observed_markers"@), None);
}

/// A report shows the requested version exactly where it carries the stamp,
/// claims the match, names the kernel's version and has a banner of it.
pub proof fn law_worker_target(
    request: RunnerRequest,
    exit: Option<i32>,
    json: Json,
    outcome: RunOutcome,
)
    requires
        judged(request, exit, json, outcome),
        !(request.backend is TcgRecovery),
    ensures
        ({
            let r = json::json_tree(json);
            let log = entries(r.at("observed_markers"@).at("xnu"@));
            outcome.guest_target_match <==> stamped_for(request, r) && on(
                r.at("guest_target_match"@),
            ) && major(r.at("guest_kernel_major"@), request.target_major) && exists|
                i: int,
                offset: u64,
            |
                0 <= i < log.len() && #[trigger] banner_at(log[i], offset) && major(
                    log[i].at("kernel_major"@),
                    request.target_major,
                )
        }),
{
    let r = json::json_tree(json);
    lemma_kernel_seen(r.at("observed_markers"@), Some(request.target_major as u64));
}

/// The inputs are shown to be untouched exactly where a report with the stamp
/// says that they are, and not that the guest changed them.
pub proof fn law_worker_integrity(
    request: RunnerRequest,
    exit: Option<i32>,
    json: Json,
    outcome: RunOutcome,
)
    requires
        judged(request, exit, json, outcome),
        !(request.backend is TcgRecovery),
    ensures
        ({
            let r = json::json_tree(json);
            outcome.input_integrity <==> stamped_for(request, r) && on(r.at("input_integrity"@))
                && !on(r.at("guest_inputs_modified"@))
        }),
{
}

/// A boot is verified exactly where the worker ended with zero, the guest
/// started and ended, every piece of evidence is there, and the report claims
/// the boot without an error.
pub proof fn law_worker_boot(
    request: RunnerRequest,
    exit: Option<i32>,
    json: Json,
    outcome: RunOutcome,
)
    requires
        judged(request, exit, json, outcome),
        !(request.backend is TcgRecovery),
    ensures
        ({
            let r = json::json_tree(json);
            outcome.macos_boot_verified <==> exit == Some(0i32) && outcome.guest_runtime_started
                && outcome.guest_process_terminated && outcome.xnu_executed
                && outcome.macos_userspace_reached && outcome.guest_target_match
                && outcome.input_integrity && on(r.at("macos_boot_verified"@)) && r.at("error"@)
                == JsonTree::Null
        }),
{
}

/// A boot that is not verified is put down to the error that the report names,
/// else to the blocker that it names, else to the first piece of evidence that
/// is missing.
pub proof fn law_worker_failure(
    request: RunnerRequest,
    exit: Option<i32>,
    json: Json,
    outcome: RunOutcome,
)
    requires
        judged(request, exit, json, outcome),
        !(request.backend is TcgRecovery),
    ensures
        outcome.failure is None <==> outcome.macos_boot_verified,
        outcome.failure matches Some(reason) ==> ({
            let r = json::json_tree(json);
            match (r.at("error"@), r.at("blocker"@)) {
                (JsonTree::Text(error), _) => reason@ == error,
                (_, JsonTree::Text(blocker)) => reason@ == blocker,
                _ => {
                    &&& !stamped_for(request, r) ==> reason@
                        == "worker report has no matching backend/target receipt"@
                    &&& stamped_for(request, r) && !outcome.guest_runtime_started ==> reason@
                        == "guest runtime was not started"@
                    &&& outcome.guest_runtime_started && !outcome.guest_process_terminated
                        ==> reason@ == "guest process termination is unconfirmed"@
                    &&& outcome.guest_process_terminated && !outcome.input_integrity ==> reason@
                        == "original input integrity is unconfirmed"@
                    &&& outcome.guest_process_terminated && outcome.input_integrity ==> reason@
                        == "target-matching XNU/userspace boot evidence is incomplete"@
                },
            }
        }),
{
}

/// Whether a receipt names the request: schema, target, the output that was
/// asked for, and an absolute output of its own.
pub open spec fn receipt_for(request: RunnerRequest, e: JsonTree) -> bool {
    &&& says(e.at("schema"@), "nextcore.recovery-supervisor/1"@)
    &&& major(e.at("target_major"@), request.target_major)
    &&& match (request.output.text, e.at("requested_output"@)) {
        (Some(asked), JsonTree::Text(named)) => asked@ == named,
        (None, JsonTree::Text(_)) => false,
        (Some(_), _) => false,
        _ => true,
    }
    &&& match e.at("output"@) {
        JsonTree::Text(path) => path.len() > 0 && path[0] == '/' && forall|i: int|
            0 <= i < path.len() ==> path[i] != '\0',
        _ => false,
    }
}

/// Whether the launch report in a receipt is one of a recovery boot of macOS,
/// for the same target and output.
pub open spec fn launch_for(request: RunnerRequest, e: JsonTree) -> bool {
    let launch = e.at("launch_report"@);
    let raw = launch.at("raw"@);
    &&& says(launch.at("raw_schema"@), "26x86.vmapple-gui/1"@)
    &&& on(launch.at("identity_valid"@))
    &&& says(raw.at("schema"@), "26x86.vmapple-gui/1"@)
    &&& major(raw.at("target_major"@), request.target_major)
    &&& raw.at("output"@) == e.at("output"@)
    &&& says(raw.at("machine_type"@), "iBoot(AArch64)"@)
    &&& says(raw.at("personality"@), "iBoot"@)
    &&& says(raw.at("guest_os"@), "macOS"@)
    &&& says(raw.at("boot_mode"@), "recovery"@)
}

/// Whether a process number is one: above zero, of 32 bits.
pub open spec fn proper_pid(pid: u64) -> bool {
    0 < pid < 0x1_0000_0000
}

/// Whether the worker's complete inventory lists one process under the
/// emulator's number, started in the worker's session.
pub open spec fn emulator_listed(e: JsonTree) -> bool {
    let worker = e.at("worker"@);
    let list = entries(worker.at("observed_processes"@));
    let number = e.at("launch_report"@).at("raw"@).at("pid"@);
    &&& on(worker.at("process_inventory_complete"@))
    &&& on(e.at("launch_report"@).at("runtime_pid_observed"@))
    &&& worker.at("pid"@) matches JsonTree::Unsigned(pid) && proper_pid(pid)
    &&& number matches JsonTree::Unsigned(pid) && proper_pid(pid)
    &&& worker.at("pid"@) != number
    &&& exists|i: int|
        0 <= i < list.len() && (#[trigger] list[i]).at("pid"@) == number && list[i].at("session"@)
            == worker.at("pid"@) && (list[i].at("starttime"@) matches JsonTree::Unsigned(time)
            && time > 0) && forall|j: int|
            0 <= j < list.len() && (#[trigger] list[j]).at("pid"@) == number ==> j == i
}

/// The guest of a recovery run was started exactly where the receipt and the
/// launch report in it belong to the request, the launch report says so, and
/// the emulator was seen in the worker's session.
pub proof fn law_recovery_start(
    request: RunnerRequest,
    exit: Option<i32>,
    json: Json,
    outcome: RunOutcome,
)
    requires
        judged(request, exit, json, outcome),
        request.backend is TcgRecovery,
    ensures
        ({
            let e = json::json_tree(json);
            outcome.guest_runtime_started <==> receipt_for(request, e) && launch_for(request, e)
                && on(e.at("launch_report"@).at("raw"@).at("runtime_started"@)) && emulator_listed(
                e,
            )
        }),
{
    let e = json::json_tree(json);
    lemma_receipt(request, e);
    lemma_emulator(e);
}

/// A recovery guest that was started is known to have ended exactly where the
/// receipt says that cleaning up is complete, the leader was reaped, and no
/// process is left.
pub proof fn law_recovery_end(
    request: RunnerRequest,
    exit: Option<i32>,
    json: Json,
    outcome: RunOutcome,
)
    requires
        judged(request, exit, json, outcome),
        request.backend is TcgRecovery,
    ensures
        ({
            let cleanup = json::json_tree(json).at("cleanup"@);
            outcome.guest_process_terminated <==> outcome.guest_runtime_started && on(
                cleanup.at("complete"@),
            ) && on(cleanup.at("leader_reaped"@)) && cleanup.at("remaining_pids"@)
                == JsonTree::Array(Seq::empty())
        }),
{
    let left = json::json_tree(json).at("cleanup"@).at("remaining_pids"@);
    if left is Array && left->Array_0.len() == 0 {
        assert(left->Array_0 =~= Seq::empty());
    }
}

/// The inputs of a recovery run are shown to be untouched exactly where a
/// receipt for the request says so.
pub proof fn law_recovery_integrity(
    request: RunnerRequest,
    exit: Option<i32>,
    json: Json,
    outcome: RunOutcome,
)
    requires
        judged(request, exit, json, outcome),
        request.backend is TcgRecovery,
    ensures
        ({
            let e = json::json_tree(json);
            outcome.input_integrity <==> receipt_for(request, e) && on(
                e.at("input_integrity"@).at("unchanged"@),
            )
        }),
{
    lemma_receipt(request, json::json_tree(json));
}

/// Whether the restore chain has a step that uploaded this component whole.
pub open spec fn uploaded(raw: JsonTree, role: Seq<char>) -> bool {
    let steps = entries(raw.at("restore_chain"@).at("steps"@));
    exists|i: int|
        0 <= i < steps.len() && says((#[trigger] steps[i]).at("role"@), role) && on(
            steps[i].at("upload"@).at("transfer_complete"@),
        )
}

/// A firmware panic that any of the three observers in the launch report saw
/// is recorded and denies the boot, whatever else the receipt says; where none
/// saw one, none is recorded.
pub proof fn law_recovery_panic(
    request: RunnerRequest,
    exit: Option<i32>,
    json: Json,
    outcome: RunOutcome,
)
    requires
        judged(request, exit, json, outcome),
        request.backend is TcgRecovery,
        outcome.guest_runtime_started,
    ensures
        ({
            let raw = json::json_tree(json).at("launch_report"@).at("raw"@);
            let panicked = on(raw.at("guest_panic"@).at("observed"@)) || on(
                raw.at("stage2"@).at("panic_observed"@),
            ) || on(raw.at("restore_chain"@).at("post_bootx_panic"@));
            &&& outcome.recovery_progress matches Some(progress)
            &&& progress.firmware_panic_observed <==> panicked
            &&& panicked ==> !outcome.macos_boot_verified && outcome.failure is Some
        }),
{
}

/// Each stage of the protocol is recorded exactly where the launch report of a
/// guest that was started shows it.
pub proof fn law_recovery_stages(
    request: RunnerRequest,
    exit: Option<i32>,
    json: Json,
    outcome: RunOutcome,
)
    requires
        judged(request, exit, json, outcome),
        request.backend is TcgRecovery,
        outcome.guest_runtime_started,
    ensures
        ({
            let raw = json::json_tree(json).at("launch_report"@).at("raw"@);
            let stage2 = raw.at("stage2"@);
            let chain = raw.at("restore_chain"@);
            &&& outcome.recovery_progress matches Some(progress)
            &&& progress.dfu_upload_completed <==> on(raw.at("dfu_upload"@).at("transfer_complete"@))
            &&& progress.ibec_endpoint_advertised <==> says(
                raw.at("transition"@).at("state"@),
                "ibec-ready"@,
            )
            &&& progress.stage2_banner_observed <==> on(stage2.at("stage2_serial_started"@))
                && stage2.at("stage2_serial_start_byte_offset"@) is Unsigned
            &&& progress.stage2_prompt_observed <==> on(stage2.at("observed"@)) && stage2.at(
                "byte_offset"@,
            ) is Unsigned
            &&& progress.bootx_acknowledged <==> on(chain.at("bootx_acknowledged"@))
            &&& progress.restore_sequence_sent <==> on(chain.at("sequence_sent"@)) && on(
                chain.at("input_integrity"@),
            ) && uploaded(raw, "RestoreTrustCache"@) && uploaded(raw, "RestoreRamDisk"@)
                && uploaded(raw, "RestoreDeviceTree"@) && uploaded(raw, "RestoreKernelCache"@)
        }),
{
    let raw = json::json_tree(json).at("launch_report"@).at("raw"@);
    lemma_roles(raw);
}

/// How many of the five restore components were uploaded whole is counted,
/// each of them once.
pub proof fn law_recovery_components(
    request: RunnerRequest,
    exit: Option<i32>,
    json: Json,
    outcome: RunOutcome,
)
    requires
        judged(request, exit, json, outcome),
        request.backend is TcgRecovery,
        outcome.guest_runtime_started,
    ensures
        ({
            let raw = json::json_tree(json).at("launch_report"@).at("raw"@);
            let all = [
                "RestoreTrustCache",
                "RestoreRamDisk",
                "RestoreDeviceTree",
                "RestoreKernelCache",
                "RestoreLogo",
            ];
            &&& outcome.recovery_progress matches Some(progress)
            &&& progress.restore_role_step_count == Set::<int>::new(
                |k: int| 0 <= k < 5 && uploaded(raw, all@[k]@),
            ).len()
        }),
{
    let raw = json::json_tree(json).at("launch_report"@).at("raw"@);
    let all = [
        "RestoreTrustCache",
        "RestoreRamDisk",
        "RestoreDeviceTree",
        "RestoreKernelCache",
        "RestoreLogo",
    ];
    lemma_roles(raw);
    lemma_count_of_five(|k: int| uploaded(raw, all@[k]@));
    assert(Set::<int>::new(|k: int| 0 <= k < 5 && uploaded(raw, all@[k]@)) =~= Set::<int>::new(
        |k: int| 0 <= k < 5 && (|k: int| uploaded(raw, all@[k]@))(k),
    ));
}

/// No stage is recorded of a guest that is not shown to have been started.
pub proof fn law_no_stages_without_a_start(
    request: RunnerRequest,
    exit: Option<i32>,
    json: Json,
    outcome: RunOutcome,
)
    requires
        judged(request, exit, json, outcome),
        request.backend is TcgRecovery,
        !outcome.guest_runtime_started,
    ensures
        outcome.recovery_progress matches Some(progress) && !progress.dfu_upload_completed
            && !progress.ibec_endpoint_advertised && !progress.stage2_banner_observed
            && !progress.stage2_prompt_observed && !progress.restore_sequence_sent
            && progress.restore_role_step_count == 0 && !progress.bootx_acknowledged
            && !progress.firmware_panic_observed,
{
}

/// Progress starts out with no stage reached.
pub proof fn law_initial_progress(progress: RecoveryProgress)
    requires
        call_ensures(RecoveryProgress::default, (), progress),
    ensures
        !progress.dfu_upload_completed && !progress.ibec_endpoint_advertised
            && !progress.stage2_banner_observed && !progress.stage2_prompt_observed
            && !progress.restore_sequence_sent && !progress.bootx_acknowledged
            && !progress.firmware_panic_observed,
        progress.restore_role_step_count == 0,
{
}

/// The observation of a recovery run: the one nested in the launch report
/// where that is an object, else the launch report.
pub open spec fn observation_in(raw: JsonTree) -> JsonTree {
    match raw.at("observation"@) {
        JsonTree::Object(fields) => JsonTree::Object(fields),
        _ => raw,
    }
}

/// Whether the observation has a kernel banner of this version there.
pub open spec fn own_banner_at(marker: JsonTree, version: u16, offset: u64) -> bool {
    banner_at(marker, offset) && major(marker.at("kernel_major"@), version)
}

/// The kernel of a started recovery guest is shown to have run exactly where
/// receipt, launch report and observation all say so, and the observation has
/// a banner of the requested version.
pub proof fn law_recovery_kernel(
    request: RunnerRequest,
    exit: Option<i32>,
    json: Json,
    outcome: RunOutcome,
)
    requires
        judged(request, exit, json, outcome),
        request.backend is TcgRecovery,
    ensures
        ({
            let e = json::json_tree(json);
            let raw = e.at("launch_report"@).at("raw"@);
            let seen = observation_in(raw);
            let log = entries(seen.at("observed_markers"@).at("xnu"@));
            outcome.xnu_executed <==> outcome.guest_runtime_started && on(
                e.at("boot"@).at("xnu_executed"@),
            ) && on(raw.at("xnu_executed"@)) && on(seen.at("xnu_executed"@)) && exists|
                i: int,
                offset: u64,
            |
                0 <= i < log.len() && #[trigger] own_banner_at(
                    log[i],
                    request.target_major,
                    offset,
                )
        }),
{
    let raw = json::json_tree(json).at("launch_report"@).at("raw"@);
    let seen = observation_in(raw).at("observed_markers"@);
    let log = entries(seen.at("xnu"@));
    lemma_kernel_seen(seen, Some(request.target_major as u64));
    assert forall|i: int, offset: u64|
        0 <= i < log.len() && #[trigger] own_banner_at(
            log[i],
            request.target_major,
            offset,
        ) implies banner_at(log[i], offset) by {}
    assert forall|i: int, offset: u64|
        0 <= i < log.len() && #[trigger] banner_at(log[i], offset) && major(
            log[i].at("kernel_major"@),
            request.target_major,
        ) implies own_banner_at(log[i], request.target_major, offset) by {}
}

/// Userspace of a recovery guest counts exactly where its kernel does, receipt
/// and observation say so, and a sign of it follows a banner of the version.
pub proof fn law_recovery_userspace(
    request: RunnerRequest,
    exit: Option<i32>,
    json: Json,
    outcome: RunOutcome,
)
    requires
        judged(request, exit, json, outcome),
        request.backend is TcgRecovery,
    ensures
        ({
            let e = json::json_tree(json);
            let seen = observation_in(e.at("launch_report"@).at("raw"@));
            let kernels = entries(seen.at("observed_markers"@).at("xnu"@));
            let signs = entries(seen.at("observed_markers"@).at("userspace"@));
            outcome.macos_userspace_reached <==> outcome.xnu_executed && on(
                e.at("boot"@).at("userspace"@),
            ) && on(seen.at("macos_userspace_reached"@)) && exists|
                i: int,
                j: int,
                first: u64,
                then_: u64,
            |
                0 <= i < kernels.len() && 0 <= j < signs.len() && first < then_
                    && #[trigger] own_banner_at(kernels[i], request.target_major, first)
                    && #[trigger] userspace_sign_at(signs[j], then_)
        }),
{
    let seen = observation_in(json::json_tree(json).at("launch_report"@).at("raw"@)).at(
        "observed_markers"@,
    );
    lemma_own_userspace_follows(seen, request.target_major);
}

/// A recovery guest is of the requested version exactly where its kernel is
/// shown to have run and receipt, launch report and observation agree on it.
pub proof fn law_recovery_target(
    request: RunnerRequest,
    exit: Option<i32>,
    json: Json,
    outcome: RunOutcome,
)
    requires
        judged(request, exit, json, outcome),
        request.backend is TcgRecovery,
    ensures
        ({
            let e = json::json_tree(json);
            let raw = e.at("launch_report"@).at("raw"@);
            let seen = observation_in(raw);
            outcome.guest_target_match <==> outcome.xnu_executed && major(
                e.at("boot"@).at("guest_kernel_major"@),
                request.target_major,
            ) && major(raw.at("guest_kernel_major"@), request.target_major) && major(
                seen.at("guest_kernel_major"@),
                request.target_major,
            ) && on(e.at("boot"@).at("target_match"@)) && on(raw.at("guest_target_match"@)) && on(
                seen.at("guest_target_match"@),
            )
        }),
{
}

/// Whether the handoff record is one of this recovery and claims the boot.
pub open spec fn handed_off(request: RunnerRequest, handoff: JsonTree) -> bool {
    &&& says(handoff.at("schema"@), "26x86.iboot-xnu-handoff/1"@)
    &&& says(handoff.at("mode"@), "recovery"@)
    &&& on(handoff.at("valid"@))
    &&& major(handoff.at("target_major"@), request.target_major)
    &&& on(handoff.at("claims"@).at("xnu_executed"@))
    &&& on(handoff.at("claims"@).at("macos_userspace_reached"@))
    &&& on(handoff.at("claims"@).at("macos_boot_verified"@))
}

/// A recovery boot is verified exactly where the supervisor saw its worker
/// through, nothing interrupted it, every piece of evidence is there, all
/// documents claim the boot without an error, every stage was passed without a
/// panic, and the second stage came before the kernel.
pub proof fn law_recovery_boot(
    request: RunnerRequest,
    exit: Option<i32>,
    json: Json,
    outcome: RunOutcome,
)
    requires
        judged(request, exit, json, outcome),
        request.backend is TcgRecovery,
    ensures
        ({
            let e = json::json_tree(json);
            let raw = e.at("launch_report"@).at("raw"@);
            let log = entries(observation_in(raw).at("observed_markers"@).at("xnu"@));
            let progress = outcome.recovery_progress->Some_0;
            outcome.macos_boot_verified <==> ({
                &&& exit == Some(0i32)
                &&& on(e.at("launch_report"@).at("complete"@))
                &&& on(e.at("worker"@).at("completed"@))
                &&& whole_zero(e.at("worker"@).at("returncode"@))
                &&& e.at("deadline"@).at("exceeded"@) == JsonTree::Bool(false)
                &&& e.at("cancel"@).at("requested"@) == JsonTree::Bool(false)
                &&& outcome.guest_runtime_started && outcome.guest_process_terminated
                &&& outcome.xnu_executed && outcome.macos_userspace_reached
                &&& outcome.guest_target_match && outcome.input_integrity
                &&& on(raw.at("input_integrity"@))
                &&& raw.at("error"@) == JsonTree::Null && e.at("error"@) == JsonTree::Null
                &&& on(raw.at("macos_boot_verified"@))
                &&& on(e.at("boot"@).at("macos_boot_verified"@))
                &&& handed_off(request, raw.at("iboot_xnu_handoff"@))
                &&& progress.dfu_upload_completed && progress.ibec_endpoint_advertised
                &&& progress.stage2_prompt_observed && progress.restore_sequence_sent
                &&& progress.bootx_acknowledged && !progress.firmware_panic_observed
                &&& forall|i: int, offset: u64|
                    0 <= i < log.len() && #[trigger] own_banner_at(
                        log[i],
                        request.target_major,
                        offset,
                    ) ==> raw.at("stage2"@).at("byte_offset"@)->Unsigned_0 < offset
            })
        }),
{
    let raw = json::json_tree(json).at("launch_report"@).at("raw"@);
    lemma_stage2_first(
        raw,
        request.target_major,
        raw.at("stage2"@).at("byte_offset"@)->Unsigned_0,
    );
    lemma_kernel_seen(
        observation_in(raw).at("observed_markers"@),
        Some(request.target_major as u64),
    );
}

/// A number that is a whole zero.
pub open spec fn whole_zero(node: JsonTree) -> bool {
    node == JsonTree::Unsigned(0) || node == JsonTree::Negative(0)
}

/// A recovery boot that is not verified is put down to the first thing that is
/// missing: identity, the emulator, the cleaning up, the inputs, an undisturbed
/// course; else to the first error or blocker that is named.
pub proof fn law_recovery_failure(
    request: RunnerRequest,
    exit: Option<i32>,
    json: Json,
    outcome: RunOutcome,
)
    requires
        judged(request, exit, json, outcome),
        request.backend is TcgRecovery,
    ensures
        outcome.failure is None <==> outcome.macos_boot_verified,
        outcome.failure matches Some(reason) ==> ({
            let e = json::json_tree(json);
            let raw = e.at("launch_report"@).at("raw"@);
            let calm = e.at("deadline"@).at("exceeded"@) == JsonTree::Bool(false) && e.at(
                "cancel"@,
            ).at("requested"@) == JsonTree::Bool(false);
            let whose = receipt_for(request, e) && launch_for(request, e);
            &&& !whose ==> reason@ == "recovery receipt has no matching supervisor/launch identity"@
            &&& whose && !outcome.guest_runtime_started ==> reason@
                == "recovery QEMU process identity was not observed in this run"@
            &&& outcome.guest_runtime_started && !outcome.guest_process_terminated ==> reason@
                == "Linux guest process cleanup is unconfirmed"@
            &&& outcome.guest_process_terminated && !outcome.input_integrity ==> reason@
                == "original recovery input integrity is unconfirmed"@
            &&& outcome.guest_process_terminated && outcome.input_integrity && !calm ==> reason@
                == "recovery was cancelled or exceeded its deadline"@
            &&& outcome.guest_process_terminated && outcome.input_integrity && calm ==> match (
                e.at("error"@),
                raw.at("error"@),
                raw.at("transition_blocker"@),
                raw.at("golden_gate_installation"@).at("blocker"@),
            ) {
                (JsonTree::Text(error), _, _, _) => reason@ == error,
                (_, JsonTree::Text(error), _, _) => reason@ == error,
                (_, _, JsonTree::Text(blocker), _) => reason@ == blocker,
                (_, _, _, JsonTree::Text(blocker)) => reason@ == blocker,
                _ => reason@
                    == "recovery completed-unverified: target-matching XNU/userspace evidence is incomplete"@,
            }
        }),
{
    lemma_receipt(request, json::json_tree(json));
}

/// A report that could not be had proves nothing of any run, whatever the exit
/// code, and its reason is the failure.
pub proof fn law_no_report_no_evidence(
    request: RunnerRequest,
    exit: Option<i32>,
    error: String,
    outcome: RunOutcome,
)
    requires
        call_ensures(
            report::evaluate_report,
            (&request, exit, Err::<Json, String>(error)),
            outcome,
        ),
    ensures
        !outcome.guest_runtime_started && !outcome.guest_process_terminated,
        !outcome.xnu_executed && !outcome.macos_userspace_reached && !outcome.guest_target_match,
        !outcome.input_integrity && !outcome.macos_boot_verified,
        outcome.report is None,
        outcome.failure matches Some(reason) && reason@ == error@,
{
    report::law_unreadable_report_proves_nothing(request, exit, error@);
}

/// Every outcome is one of a worker that was seen to its end: it keeps the
/// exit code and the document, names the engine, and claims neither an
/// installation nor accelerated graphics. Stages are recorded of recovery runs
/// alone.
pub proof fn law_outcome_frame(
    request: RunnerRequest,
    exit: Option<i32>,
    json: Json,
    outcome: RunOutcome,
)
    requires
        judged(request, exit, json, outcome),
    ensures
        outcome.schema@ == "nextcore.apls-host-run/1"@,
        outcome.runner_exit_code == exit,
        outcome.runner_completed,
        outcome.runner_pid == 0,
        !outcome.installation_verified,
        !outcome.graphics_acceleration_verified,
        outcome.report matches Some(kept) && json::json_tree(kept) == json::json_tree(json),
        outcome.recovery_progress is Some <==> request.backend is TcgRecovery,
        request.backend is Native ==> outcome.engine@ == "macosvm"@,
        request.backend is Tcg ==> outcome.engine@ == "qemu-vmapple-tcg"@,
        request.backend is TcgRecovery ==> outcome.engine@ == "qemu-vmapple-recovery"@,
{
}

/// A run's state is faulted, with the failure for its reason, exactly where no
/// boot was verified; it is never running.
pub proof fn law_state_after_the_run(
    request: RunnerRequest,
    exit: Option<i32>,
    json: Json,
    outcome: RunOutcome,
    state: crate::guest::GuestState,
)
    requires
        judged(request, exit, json, outcome),
        call_ensures(RunOutcome::guest_state, (&outcome,), state),
    ensures
        outcome.macos_boot_verified ==> state is Stopped,
        !outcome.macos_boot_verified ==> (state matches crate::guest::GuestState::Faulted(reason)
            && outcome.failure is Some && reason@ == outcome.failure->Some_0@),
{
}

/// A recovery receipt is judged the same by the evaluator of recoveries and by
/// that of all reports.
pub proof fn law_recovery_evaluator_agrees(
    request: RunnerRequest,
    exit: Option<i32>,
    parsed: Result<Json, String>,
    outcome: RunOutcome,
    other: RunOutcome,
)
    requires
        request.backend is TcgRecovery,
        call_ensures(report::evaluate_report, (&request, exit, parsed), outcome),
        call_ensures(report::evaluate_recovery_report, (&request, exit, parsed), other),
    ensures
        outcome.guest_runtime_started == other.guest_runtime_started,
        outcome.guest_process_terminated == other.guest_process_terminated,
        outcome.xnu_executed == other.xnu_executed,
        outcome.macos_userspace_reached == other.macos_userspace_reached,
        outcome.guest_target_match == other.guest_target_match,
        outcome.input_integrity == other.input_integrity,
        outcome.macos_boot_verified == other.macos_boot_verified,
        outcome.recovery_progress == other.recovery_progress,
        outcome.failure is Some == other.failure is Some,
        outcome.failure is Some ==> outcome.failure->Some_0@ == other.failure->Some_0@,
{
    assert(report::claims(outcome) == report::claims(other));
    assert(report::claims(outcome).failure == report::claims(other).failure);
}

proof fn lemma_receipt(request: RunnerRequest, e: JsonTree)
    ensures
        report::recovery_identity(request, e) == receipt_for(request, e),
        report::recovery_launch_identity(request, e) == (receipt_for(request, e) && launch_for(
            request,
            e,
        )),
{
    if let JsonTree::Text(path) = e.at("output"@) {
        if path.contains('\0') {
            let i = path.index_of('\0');
            assert(path[i] == '\0');
        }
        assert(path.contains('\0') == !(forall|i: int| 0 <= i < path.len() ==> path[i] != '\0'));
    }
}

proof fn lemma_emulator(e: JsonTree)
    ensures
        report::emulator_observed(e) == emulator_listed(e),
{
    let worker = e.at("worker"@);
    let list = entries(worker.at("observed_processes"@));
    let number = e.at("launch_report"@).at("raw"@).at("pid"@);
    assert(list == worker.at("observed_processes"@).items());
    if report::emulator_observed(e) {
        let pid = number->Unsigned_0;
        let session = worker.at("pid"@)->Unsigned_0;
        let i = choose|i: int|
            0 <= i < list.len() && #[trigger] list[i].at("pid"@).is_number(pid as int)
                && list[i].at("session"@).is_number(session as int) && (list[i].at(
                "starttime"@,
            ) matches JsonTree::Unsigned(time) && time > 0) && (forall|j: int|
                0 <= j < list.len() && j != i ==> !(#[trigger] list[j].at("pid"@).is_number(
                    pid as int,
                )));
        assert(list[i].at("pid"@) == number);
        assert forall|j: int| 0 <= j < list.len() && (#[trigger] list[j]).at("pid"@)
            == number implies j == i by {
            assert(list[j].at("pid"@).is_number(pid as int));
        }
    }
    if emulator_listed(e) {
        let pid = number->Unsigned_0;
        let i = choose|i: int|
            0 <= i < list.len() && (#[trigger] list[i]).at("pid"@) == number && list[i].at(
                "session"@,
            ) == worker.at("pid"@) && (list[i].at("starttime"@) matches JsonTree::Unsigned(time)
                && time > 0) && forall|j: int|
                0 <= j < list.len() && (#[trigger] list[j]).at("pid"@) == number ==> j == i;
        assert(list[i].at("pid"@).is_number(pid as int));
        assert forall|j: int| 0 <= j < list.len() && j != i implies !(#[trigger] list[j].at(
            "pid"@,
        ).is_number(pid as int)) by {
            if list[j].at("pid"@).is_number(pid as int) {
                assert(list[j].at("pid"@) == number);
            }
        }
    }
}

proof fn lemma_roles(raw: JsonTree)
    ensures
        forall|role: Seq<char>| #[trigger] report::role_uploaded(raw, role) == uploaded(raw, role),
{
    let steps = entries(raw.at("restore_chain"@).at("steps"@));
    assert(steps == raw.at("restore_chain"@).at("steps"@).items());
}

/// A set of some of five places has as many members as there are such places.
proof fn lemma_count_of_five(chosen: spec_fn(int) -> bool)
    ensures
        Set::<int>::new(|k: int| 0 <= k < 5 && chosen(k)).len() == (if chosen(0) {
            1int
        } else {
            0
        }) + (if chosen(1) {
            1int
        } else {
            0
        }) + (if chosen(2) {
            1int
        } else {
            0
        }) + (if chosen(3) {
            1int
        } else {
            0
        }) + (if chosen(4) {
            1int
        } else {
            0
        }),
{
    let whole = Set::<int>::new(|k: int| 0 <= k < 5 && chosen(k));
    let none = Set::<int>::empty();
    let s0 = if chosen(0) {
        none.insert(0)
    } else {
        none
    };
    let s1 = if chosen(1) {
        s0.insert(1)
    } else {
        s0
    };
    let s2 = if chosen(2) {
        s1.insert(2)
    } else {
        s1
    };
    let s3 = if chosen(3) {
        s2.insert(3)
    } else {
        s2
    };
    let s4 = if chosen(4) {
        s3.insert(4)
    } else {
        s3
    };
    assert(whole =~= s4);
}

proof fn lemma_kernel_seen(markers: JsonTree, version: Option<u64>)
    ensures
        ({
            let log = entries(markers.at("xnu"@));
            report::kernel_seen(markers, version) == exists|i: int, offset: u64|
                0 <= i < log.len() && #[trigger] banner_at(log[i], offset) && (version matches Some(
                    v,
                ) ==> log[i].at("kernel_major"@) == JsonTree::Unsigned(v))
        }),
{
    let log = entries(markers.at("xnu"@));
    assert(log == markers.at("xnu"@).items());
    if report::kernel_seen(markers, version) {
        let offset = choose|offset: u64| report::kernel_seen_at(markers, version, offset);
        let i = choose|i: int|
            0 <= i < log.len() && report::kernel_marker(#[trigger] log[i], version) && log[i].at(
                "byte_offset"@,
            ) == JsonTree::Unsigned(offset);
        assert(banner_at(log[i], offset));
    }
    if exists|i: int, offset: u64|
        0 <= i < log.len() && #[trigger] banner_at(log[i], offset) && (version matches Some(v)
            ==> log[i].at("kernel_major"@) == JsonTree::Unsigned(v)) {
        let (i, offset) = choose|i: int, offset: u64|
            0 <= i < log.len() && #[trigger] banner_at(log[i], offset) && (version matches Some(v)
                ==> log[i].at("kernel_major"@) == JsonTree::Unsigned(v));
        assert(report::kernel_marker(log[i], version));
        assert(report::kernel_seen_at(markers, version, offset));
    }
}

proof fn lemma_userspace_follows(markers: JsonTree, version: Option<u64>)
    ensures
        ({
            let kernels = entries(markers.at("xnu"@));
            let signs = entries(markers.at("userspace"@));
            report::userspace_follows_kernel(markers, version) == exists|
                i: int,
                j: int,
                first: u64,
                then_: u64,
            |
                0 <= i < kernels.len() && 0 <= j < signs.len() && first < then_
                    && #[trigger] banner_at(kernels[i], first) && (version matches Some(v)
                    ==> kernels[i].at("kernel_major"@) == JsonTree::Unsigned(v))
                    && #[trigger] userspace_sign_at(signs[j], then_)
        }),
{
    let kernels = entries(markers.at("xnu"@));
    let signs = entries(markers.at("userspace"@));
    assert(kernels == markers.at("xnu"@).items());
    assert(signs == markers.at("userspace"@).items());
    if report::userspace_follows_kernel(markers, version) {
        let (first, then_) = choose|first: u64, then_: u64|
            first < then_ && #[trigger] report::kernel_seen_at(markers, version, first)
                && #[trigger] report::userspace_seen_at(markers, then_);
        let i = choose|i: int|
            0 <= i < kernels.len() && report::kernel_marker(#[trigger] kernels[i], version)
                && kernels[i].at("byte_offset"@) == JsonTree::Unsigned(first);
        let j = choose|j: int|
            0 <= j < signs.len() && report::userspace_marker(#[trigger] signs[j]) && signs[j].at(
                "byte_offset"@,
            ) == JsonTree::Unsigned(then_);
        assert(banner_at(kernels[i], first) && userspace_sign_at(signs[j], then_));
    }
    if exists|i: int, j: int, first: u64, then_: u64|
        0 <= i < kernels.len() && 0 <= j < signs.len() && first < then_ && #[trigger] banner_at(
            kernels[i],
            first,
        ) && (version matches Some(v) ==> kernels[i].at("kernel_major"@) == JsonTree::Unsigned(v))
            && #[trigger] userspace_sign_at(signs[j], then_) {
        let (i, j, first, then_) = choose|i: int, j: int, first: u64, then_: u64|
            0 <= i < kernels.len() && 0 <= j < signs.len() && first < then_ && #[trigger] banner_at(
                kernels[i],
                first,
            ) && (version matches Some(v) ==> kernels[i].at("kernel_major"@) == JsonTree::Unsigned(
                v,
            )) && #[trigger] userspace_sign_at(signs[j], then_);
        assert(report::kernel_marker(kernels[i], version));
        assert(report::userspace_marker(signs[j]));
        assert(report::kernel_seen_at(markers, version, first));
        assert(report::userspace_seen_at(markers, then_));
    }
}

proof fn lemma_own_userspace_follows(markers: JsonTree, version: u16)
    ensures
        ({
            let kernels = entries(markers.at("xnu"@));
            let signs = entries(markers.at("userspace"@));
            report::userspace_follows_kernel(markers, Some(version as u64)) == exists|
                i: int,
                j: int,
                first: u64,
                then_: u64,
            |
                0 <= i < kernels.len() && 0 <= j < signs.len() && first < then_
                    && #[trigger] own_banner_at(kernels[i], version, first)
                    && #[trigger] userspace_sign_at(signs[j], then_)
        }),
{
    let kernels = entries(markers.at("xnu"@));
    let signs = entries(markers.at("userspace"@));
    lemma_userspace_follows(markers, Some(version as u64));
    if report::userspace_follows_kernel(markers, Some(version as u64)) {
        let (i, j, first, then_) = choose|i: int, j: int, first: u64, then_: u64|
            0 <= i < kernels.len() && 0 <= j < signs.len() && first < then_ && #[trigger] banner_at(
                kernels[i],
                first,
            ) && kernels[i].at("kernel_major"@) == JsonTree::Unsigned(version as u64)
                && #[trigger] userspace_sign_at(signs[j], then_);
        assert(own_banner_at(kernels[i], version, first) && userspace_sign_at(signs[j], then_));
    }
    if exists|i: int, j: int, first: u64, then_: u64|
        0 <= i < kernels.len() && 0 <= j < signs.len() && first < then_ && #[trigger] own_banner_at(
            kernels[i],
            version,
            first,
        ) && #[trigger] userspace_sign_at(signs[j], then_) {
        let (i, j, first, then_) = choose|i: int, j: int, first: u64, then_: u64|
            0 <= i < kernels.len() && 0 <= j < signs.len() && first < then_
                && #[trigger] own_banner_at(kernels[i], version, first)
                && #[trigger] userspace_sign_at(signs[j], then_);
        assert(banner_at(kernels[i], first) && userspace_sign_at(signs[j], then_));
    }
}

proof fn lemma_stage2_first(raw: JsonTree, version: u16, stage2: u64)
    ensures
        ({
            let markers = observation_in(raw).at("observed_markers"@);
            let log = entries(markers.at("xnu"@));
            (forall|kernel: u64| #[trigger]
                report::kernel_seen_at(markers, Some(version as u64), kernel) ==> stage2 < kernel)
                == (forall|i: int, offset: u64|
                0 <= i < log.len() && #[trigger] own_banner_at(log[i], version, offset) ==> stage2
                    < offset)
        }),
{
    let markers = observation_in(raw).at("observed_markers"@);
    let log = entries(markers.at("xnu"@));
    assert(log == markers.at("xnu"@).items());
    assert forall|i: int, offset: u64|
        0 <= i < log.len() && #[trigger] own_banner_at(
            log[i],
            version,
            offset,
        ) implies report::kernel_seen_at(markers, Some(version as u64), offset) by {
        assert(report::kernel_marker(log[i], Some(version as u64)));
    }
    assert forall|kernel: u64| #[trigger]
        report::kernel_seen_at(markers, Some(version as u64), kernel) implies exists|i: int|
        0 <= i < log.len() && #[trigger] own_banner_at(log[i], version, kernel) by {
        let i = choose|i: int|
            0 <= i < log.len() && report::kernel_marker(
                #[trigger] log[i],
                Some(version as u64),
            ) && log[i].at("byte_offset"@) == JsonTree::Unsigned(kernel);
        assert(own_banner_at(log[i], version, kernel));
    }
}

} // verus!
