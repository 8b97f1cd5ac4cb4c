//! Capturing a worker's output, concluding a run, and its course.
use vstd::prelude::*;

use crate::capture;
use crate::capture::{CapturedReport, ReportCapture};
use crate::digest;
use crate::json;
use crate::json::{Json, JsonTree};
use crate::laws::text as text_laws;
use crate::orchestration::{RunEvent, RunFailure, RunPhase};
use crate::report;
use crate::report::RunOutcome;
use crate::runner::RunnerRequest;
use crate::text;

verus! {

/// A new capture has taken in nothing.
pub proof fn law_new_capture(limit: u64, capture: ReportCapture)
    requires
        call_ensures(ReportCapture::new, (limit,), capture),
    ensures
        capture.well_formed(),
        capture.output().len() == 0,
        capture.limit() == limit,
{
}

/// A chunk goes behind all that was taken in before, and takes as much room.
pub proof fn law_absorbed_chunk(
    capture: &mut ReportCapture,
    chunk: &[u8],
    before: ReportCapture,
    room: u64,
    after: ReportCapture,
    left: u64,
)
    requires
        *old(capture) == before,
        *final(capture) == after,
        call_ensures(ReportCapture::room, (&before,), room),
        call_ensures(ReportCapture::absorb, (capture, chunk), ()),
        call_ensures(ReportCapture::room, (&after,), left),
    ensures
        after.output().len() == before.output().len() + chunk@.len(),
        forall|i: int|
            0 <= i < before.output().len() ==> #[trigger] after.output()[i] == before.output()[i],
        forall|i: int|
            0 <= i < chunk@.len() ==> after.output()[before.output().len() + i]
                == #[trigger] chunk@[i],
        after.limit() == before.limit(),
        after.well_formed(),
        room == 0x1fff_ffff_ffff_ffff - before.output().len(),
        left == room - chunk@.len(),
{
}

/// Of an output all is kept that is within the limit, and one byte more where
/// it is longer; its digest is that of the whole, in hexadecimal digits.
pub proof fn law_captured_output(capture: ReportCapture, captured: CapturedReport)
    requires
        call_ensures(ReportCapture::finish, (capture,), captured),
    ensures
        ({
            let whole = capture.output();
            let kept = captured.bytes@;
            &&& kept.len() == if whole.len() <= capture.limit() {
                whole.len() as int
            } else {
                capture.limit() + 1
            }
            &&& forall|i: int| 0 <= i < kept.len() ==> #[trigger] kept[i] == whole[i]
            &&& captured.sha256@.len() == 2 * digest::sha256(whole).len()
            &&& forall|i: int|
                0 <= i < digest::sha256(whole).len() ==> #[trigger] digest::sha256(whole)[i] == 16
                    * text_laws::nibble(captured.sha256@[2 * i]) + text_laws::nibble(
                    captured.sha256@[2 * i + 1],
                )
        }),
{
    text_laws::lemma_hex(digest::sha256(capture.output()));
}

/// A report may be four MiB long, and a recovery receipt eight and a newline.
pub proof fn law_report_limits(request: RunnerRequest, limit: u64)
    requires
        call_ensures(RunnerRequest::report_limit, (&request,), limit),
    ensures
        limit == if request.backend is TcgRecovery {
            8388609int
        } else {
            4194304
        },
{
}

/// A report is read as the document that its bytes are; where they are none,
/// or too many, the reason says so, with the limit in MiB.
pub proof fn law_report_read(bytes: &[u8], limit: u64, read: Result<Json, String>, mib: String)
    requires
        call_ensures(capture::read_report, (bytes, limit), read),
        call_ensures(text::decimal_text, (limit / 1048576,), mib),
    ensures
        bytes@.len() > limit ==> (read matches Err(reason) && reason@ == "worker report exceeds "@
            + mib@ + " MiB"@),
        bytes@.len() <= limit ==> match (json::parsed_json(bytes@), read) {
            (Ok(tree), Ok(document)) => json::json_tree(document) == tree,
            (Err(why), Err(reason)) => reason@ == "worker did not return valid JSON: "@ + why,
            _ => false,
        },
{
    assert(json::json_outcome(read) == capture::report_or_reason(
        bytes@,
        limit,
        json::parsed_json(bytes@),
    ));
}

/// A parsed report stays as it is; a reason is put into words.
pub proof fn law_report_parsed(parsed: Result<Json, String>, report: Result<Json, String>)
    requires
        call_ensures(capture::parsed_report, (parsed,), report),
    ensures
        match (parsed, report) {
            (Ok(a), Ok(b)) => json::json_tree(a) == json::json_tree(b),
            (Err(why), Err(reason)) => reason@ == "worker did not return valid JSON: "@ + why@,
            _ => false,
        },
{
    assert(json::json_outcome(parsed) is Ok == parsed is Ok);
    assert(json::json_outcome(report) is Ok == report is Ok);
}

/// The conclusion of a run is the judgement of what its report reads as, under
/// the limit of its request, with the number of its worker and the digest of
/// its output.
pub proof fn law_conclusion(
    request: RunnerRequest,
    pid: u32,
    exit: Option<i32>,
    captured: CapturedReport,
    bytes: &[u8],
    limit: u64,
    read: Result<Json, String>,
    judged: RunOutcome,
    outcome: RunOutcome,
)
    requires
        call_ensures(RunnerRequest::report_limit, (&request,), limit),
        bytes@ == captured.bytes@,
        call_ensures(capture::read_report, (bytes, limit), read),
        call_ensures(report::evaluate_report, (&request, exit, read), judged),
        call_ensures(RunnerRequest::conclude, (&request, pid, exit, captured), outcome),
    ensures
        outcome.runner_pid == pid,
        outcome.stdout_sha256@ == captured.sha256@,
        outcome.schema@ == judged.schema@,
        outcome.engine@ == judged.engine@,
        outcome.runner_exit_code == exit,
        outcome.runner_completed == judged.runner_completed,
        outcome.guest_runtime_started == judged.guest_runtime_started,
        outcome.guest_process_terminated == judged.guest_process_terminated,
        outcome.xnu_executed == judged.xnu_executed,
        outcome.macos_userspace_reached == judged.macos_userspace_reached,
        outcome.guest_target_match == judged.guest_target_match,
        outcome.input_integrity == judged.input_integrity,
        outcome.macos_boot_verified == judged.macos_boot_verified,
        outcome.installation_verified == judged.installation_verified,
        outcome.graphics_acceleration_verified == judged.graphics_acceleration_verified,
        outcome.recovery_progress == judged.recovery_progress,
        match (outcome.failure, judged.failure) {
            (Some(a), Some(b)) => a@ == b@,
            (None, None) => true,
            _ => false,
        },
        match (outcome.report, judged.report) {
            (Some(a), Some(b)) => json::json_tree(a) == json::json_tree(b),
            (None, None) => true,
            _ => false,
        },
{
    assert(report::claims(outcome) == report::claims(judged));
    assert(report::claims(outcome).failure == report::claims(judged).failure);
}

/// The phases before the worker is started come one after the other, each once
/// the one before has succeeded; a failure ends the run there.
pub proof fn law_course_up_to_the_start(
    request: RunnerRequest,
    phase: RunPhase,
    event: RunEvent,
    next: RunPhase,
)
    requires
        call_ensures(RunnerRequest::advance, (&request, phase, event), next),
        event is Succeeded || event is Failed,
        phase is MakeReceipts || phase is WriteRequest || phase is WriteInvocation
            || phase is OpenStdout || phase is OpenStderr,
    ensures
        event is Failed ==> next == RunPhase::Failed(RunFailure::LastStep),
        event is Succeeded ==> {
            &&& phase is MakeReceipts <==> next is WriteRequest
            &&& phase is WriteRequest <==> next is WriteInvocation
            &&& phase is WriteInvocation <==> next is OpenStdout
            &&& phase is OpenStdout <==> next is OpenStderr
            &&& phase is OpenStderr <==> next is Start
        },
{
}

/// A worker that was started has its number recorded, and is awaited whether
/// that succeeded or not. One that could not be started is written down as
/// such, which is the end.
pub proof fn law_course_of_the_start(
    request: RunnerRequest,
    phase: RunPhase,
    event: RunEvent,
    next: RunPhase,
)
    requires
        call_ensures(RunnerRequest::advance, (&request, phase, event), next),
    ensures
        phase is Start ==> match event {
            RunEvent::Started(pid) => next == (RunPhase::RecordPid { pid }),
            RunEvent::Failed => next is WriteStartFailure,
            _ => true,
        },
        phase matches RunPhase::RecordPid { pid } ==> (event is Succeeded || event is Failed
            ==> next == (RunPhase::Await { pid, recorded: event is Succeeded })),
        phase is WriteStartFailure ==> (event is Succeeded ==> next == RunPhase::Failed(
            RunFailure::Start,
        )) && (event is Failed ==> next == RunPhase::Failed(RunFailure::LastStep)),
{
}

/// A worker that has ended has its report read, with its number and exit code,
/// where the number was recorded; else the run fails for want of that record.
/// What was read is concluded upon, written down, and given out as it is.
pub proof fn law_course_to_the_end(
    request: RunnerRequest,
    phase: RunPhase,
    event: RunEvent,
    next: RunPhase,
)
    requires
        call_ensures(RunnerRequest::advance, (&request, phase, event), next),
    ensures
        phase matches RunPhase::Await { pid, recorded } ==> match event {
            RunEvent::Exited(exit) => next == if recorded {
                RunPhase::ReadReport { pid, exit }
            } else {
                RunPhase::Failed(RunFailure::PidRecord)
            },
            RunEvent::Failed => next == RunPhase::Failed(RunFailure::LastStep),
            _ => true,
        },
        phase is ReadReport ==> match event {
            RunEvent::Captured(_) => next is WriteOutcome,
            RunEvent::Failed => next == RunPhase::Failed(RunFailure::LastStep),
            _ => true,
        },
        phase matches RunPhase::WriteOutcome(outcome) ==> match event {
            RunEvent::Succeeded => next == RunPhase::Finished(outcome),
            RunEvent::Failed => next == RunPhase::Failed(RunFailure::LastStep),
            _ => true,
        },
{
}

/// The outcome that a run writes down is the conclusion of what was captured.
pub proof fn law_course_concludes(
    request: RunnerRequest,
    pid: u32,
    exit: Option<i32>,
    captured: CapturedReport,
    outcome: RunOutcome,
    concluded: RunOutcome,
)
    requires
        call_ensures(
            RunnerRequest::advance,
            (&request, RunPhase::ReadReport { pid, exit }, RunEvent::Captured(captured)),
            RunPhase::WriteOutcome(outcome),
        ),
        call_ensures(RunnerRequest::conclude, (&request, pid, exit, captured), concluded),
    ensures
        outcome.runner_pid == pid && outcome.runner_exit_code == exit,
        outcome.stdout_sha256@ == captured.sha256@,
        outcome.macos_boot_verified == concluded.macos_boot_verified,
        outcome.guest_runtime_started == concluded.guest_runtime_started,
        outcome.guest_process_terminated == concluded.guest_process_terminated,
        outcome.xnu_executed == concluded.xnu_executed,
        outcome.macos_userspace_reached == concluded.macos_userspace_reached,
        outcome.guest_target_match == concluded.guest_target_match,
        outcome.input_integrity == concluded.input_integrity,
        outcome.recovery_progress == concluded.recovery_progress,
        match (outcome.failure, concluded.failure) {
            (Some(a), Some(b)) => a@ == b@,
            (None, None) => true,
            _ => false,
        },
{
    assert(report::claims(outcome) == report::claims(concluded));
    assert(report::claims(outcome).failure == report::claims(concluded).failure);
}

} // verus!
