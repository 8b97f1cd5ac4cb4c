use nextcore_apls::capture::CapturedReport;
use nextcore_apls::orchestration::{RunEvent, RunFailure, RunPhase};
use nextcore_apls::runner::{
    HostPlatform, RunnerBackend, RunnerError, RunnerHost, RunnerPath, RunnerRequest,
};

const APPLE: HostPlatform = HostPlatform { windows: false, apple_silicon_macos: true };

fn request() -> RunnerRequest {
    let path = RunnerPath::new("/p");
    RunnerRequest {
        host: RunnerHost::Local { python: path.clone() },
        backend: RunnerBackend::Native { macosvm: path.clone() },
        repository: path.clone(),
        vm_json: path.clone(),
        output: path.clone(),
        host_receipt_dir: path,
        target_major: 27,
        observation_timeout_secs: 5,
        duration_secs: 5,
        research_only: true,
    }
}

fn captured() -> CapturedReport {
    CapturedReport { bytes: br#"{"error":"no disk"}"#.to_vec(), sha256: "00".into() }
}

/// The phases before the worker is started.
const RECEIPTS: usize = 5;

/// Goes through a run up to the point where the worker is started.
fn ready() -> RunPhase {
    let (_, mut phase) = request().begin(APPLE).unwrap();
    for _ in 0..RECEIPTS {
        phase = request().advance(phase, RunEvent::Succeeded);
    }
    assert_eq!(phase, RunPhase::Start);
    phase
}

#[test]
fn a_refused_request_has_no_first_phase() {
    let mut refused = request();
    refused.duration_secs = 0;
    assert_eq!(
        refused.begin(APPLE),
        Err(RunnerError::InvalidRequest("timeouts must be 1..86400 seconds"))
    );
    let (command, phase) = request().begin(APPLE).unwrap();
    assert_eq!(command, request().invocation(APPLE).unwrap());
    assert_eq!(phase, RunPhase::MakeReceipts);
}

#[test]
fn a_run_goes_through_its_phases_in_order() {
    let run = request();
    let mut phase = RunPhase::MakeReceipts;
    for expected in [
        RunPhase::WriteRequest,
        RunPhase::WriteInvocation,
        RunPhase::OpenStdout,
        RunPhase::OpenStderr,
        RunPhase::Start,
    ] {
        phase = run.advance(phase, RunEvent::Succeeded);
        assert_eq!(phase, expected);
    }
    phase = run.advance(phase, RunEvent::Started(9));
    assert_eq!(phase, RunPhase::RecordPid { pid: 9 });
    phase = run.advance(phase, RunEvent::Succeeded);
    assert_eq!(phase, RunPhase::Await { pid: 9, recorded: true });
    phase = run.advance(phase, RunEvent::Exited(Some(2)));
    assert_eq!(phase, RunPhase::ReadReport { pid: 9, exit: Some(2) });
    phase = run.advance(phase, RunEvent::Captured(captured()));
    let outcome = run.conclude(9, Some(2), captured());
    assert_eq!(phase, RunPhase::WriteOutcome(outcome));
    phase = run.advance(phase, RunEvent::Succeeded);
    let outcome = run.conclude(9, Some(2), captured());
    assert_eq!(outcome.failure.as_deref(), Some("no disk"));
    assert_eq!(phase, RunPhase::Finished(outcome));
}

#[test]
fn a_failed_receipt_ends_the_run_before_the_worker_starts() {
    for done in 0..RECEIPTS {
        let mut phase = RunPhase::MakeReceipts;
        for _ in 0..done {
            phase = request().advance(phase, RunEvent::Succeeded);
        }
        assert_eq!(
            request().advance(phase, RunEvent::Failed),
            RunPhase::Failed(RunFailure::LastStep)
        );
    }
}

#[test]
fn a_worker_that_cannot_start_is_written_down() {
    let failure = request().advance(ready(), RunEvent::Failed);
    assert_eq!(failure, RunPhase::WriteStartFailure);
    assert_eq!(
        request().advance(failure, RunEvent::Succeeded),
        RunPhase::Failed(RunFailure::Start)
    );
    assert_eq!(
        request().advance(RunPhase::WriteStartFailure, RunEvent::Failed),
        RunPhase::Failed(RunFailure::LastStep)
    );
}

#[test]
fn a_running_worker_is_waited_for_though_its_number_is_lost() {
    let running = request().advance(ready(), RunEvent::Started(7));
    let waiting = request().advance(running, RunEvent::Failed);
    assert_eq!(waiting, RunPhase::Await { pid: 7, recorded: false });
    assert_eq!(
        request().advance(waiting, RunEvent::Exited(Some(0))),
        RunPhase::Failed(RunFailure::PidRecord)
    );
    assert_eq!(
        request().advance(RunPhase::Await { pid: 7, recorded: true }, RunEvent::Failed),
        RunPhase::Failed(RunFailure::LastStep)
    );
}

#[test]
fn an_unreadable_output_or_outcome_ends_the_run() {
    assert_eq!(
        request().advance(RunPhase::ReadReport { pid: 7, exit: None }, RunEvent::Failed),
        RunPhase::Failed(RunFailure::LastStep)
    );
    let outcome = request().conclude(7, None, captured());
    assert_eq!(
        request().advance(RunPhase::WriteOutcome(outcome), RunEvent::Failed),
        RunPhase::Failed(RunFailure::LastStep)
    );
}
