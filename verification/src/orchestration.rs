//! The course of a run, step by step.
//!
//! A run makes a directory for its receipts, writes down what it is about to
//! do, starts the worker, waits for it, reads what it wrote and writes down
//! the conclusion. Each step is done outside; what comes next is decided here.
//! A worker that was started is waited for, whatever fails meanwhile.
use vstd::prelude::*;

use crate::capture;
use crate::capture::CapturedReport;
use crate::report::RunOutcome;
use crate::runner;
use crate::runner::{HostPlatform, Invocation, RunnerError, RunnerRequest};
use crate::text;

verus! {

/// Why a run that was admitted has no outcome.
#[derive(Debug, Clone, Copy, PartialEq, Eq, Structural)]
pub enum RunFailure {
    /// The step that was done last failed.
    LastStep,
    /// The worker could not be started.
    Start,
    /// The worker has ended, but its process number could not be written down.
    PidRecord,
}

/// What a run does next, or how it ended.
#[derive(Debug, PartialEq, Eq)]
pub enum RunPhase {
    /// Make the directory for the receipts, which must not exist.
    MakeReceipts,
    WriteRequest,
    WriteInvocation,
    /// Open the files that the worker's output and messages go to.
    OpenStdout,
    OpenStderr,
    Start,
    /// Write down that the worker could not be started.
    WriteStartFailure,
    /// Write down the process number of the worker, which is running.
    RecordPid { pid: u32 },
    /// Wait for the worker to end.
    Await { pid: u32, recorded: bool },
    /// Read what the worker wrote.
    ReadReport { pid: u32, exit: Option<i32> },
    WriteOutcome(RunOutcome),
    Finished(RunOutcome),
    Failed(RunFailure),
}

/// How a step went.
#[derive(Debug, PartialEq, Eq)]
pub enum RunEvent {
    Succeeded,
    Failed,
    /// The worker runs under this process number.
    Started(u32),
    /// The worker has ended; no code where a signal ended it.
    Exited(Option<i32>),
    Captured(CapturedReport),
}

/// Whether an event can come of a phase.
pub open spec fn fits(phase: RunPhase, event: RunEvent) -> bool {
    match phase {
        RunPhase::Start => event is Started || event is Failed,
        RunPhase::Await { .. } => event is Exited || event is Failed,
        RunPhase::ReadReport { .. } => event is Captured || event is Failed,
        RunPhase::Finished(_) => false,
        RunPhase::Failed(_) => false,
        _ => event is Succeeded || event is Failed,
    }
}

/// Whether `next` is the phase that follows `phase` upon `event`.
pub open spec fn follows(
    request: RunnerRequest,
    phase: RunPhase,
    event: RunEvent,
    next: RunPhase,
) -> bool {
    match (phase, event) {
        (RunPhase::MakeReceipts, RunEvent::Succeeded) => next is WriteRequest,
        (RunPhase::WriteRequest, RunEvent::Succeeded) => next is WriteInvocation,
        (RunPhase::WriteInvocation, RunEvent::Succeeded) => next is OpenStdout,
        (RunPhase::OpenStdout, RunEvent::Succeeded) => next is OpenStderr,
        (RunPhase::OpenStderr, RunEvent::Succeeded) => next is Start,
        (RunPhase::Start, RunEvent::Started(pid)) => next == (RunPhase::RecordPid { pid }),
        (RunPhase::Start, RunEvent::Failed) => next is WriteStartFailure,
        (RunPhase::WriteStartFailure, RunEvent::Succeeded) => next == RunPhase::Failed(
            RunFailure::Start,
        ),
        (RunPhase::RecordPid { pid }, RunEvent::Succeeded) => next == (RunPhase::Await {
            pid,
            recorded: true,
        }),
        (RunPhase::RecordPid { pid }, RunEvent::Failed) => next == (RunPhase::Await {
            pid,
            recorded: false,
        }),
        (RunPhase::Await { pid, recorded }, RunEvent::Exited(exit)) => next == if recorded {
            RunPhase::ReadReport { pid, exit }
        } else {
            RunPhase::Failed(RunFailure::PidRecord)
        },
        (
            RunPhase::ReadReport { pid, exit },
            RunEvent::Captured(captured),
        ) => next matches RunPhase::WriteOutcome(outcome) && capture::concludes(
            outcome,
            request,
            pid,
            exit,
            captured,
        ),
        (RunPhase::WriteOutcome(outcome), RunEvent::Succeeded) => next == RunPhase::Finished(
            outcome,
        ),
        _ => next == RunPhase::Failed(RunFailure::LastStep),
    }
}

/// Whether the worker was started and has not been waited for.
pub open spec fn worker_runs(phase: RunPhase) -> bool {
    phase is RecordPid || phase is Await
}

/// Whether a run is over.
pub open spec fn over(phase: RunPhase) -> bool {
    phase is Finished || phase is Failed
}

impl RunnerRequest {
    /// Begins a run: the command that is going to be run and the first phase.
    /// A refused request has no first phase, so that nothing is made for it.
    pub fn begin(&self, platform: HostPlatform) -> (begun: Result<
        (Invocation, RunPhase),
        RunnerError,
    >)
        ensures
            match begun {
                Ok((command, phase)) => {
                    &&& runner::request_refusal(*self, platform) is None
                    &&& command.executable@ == runner::planned_executable(*self)
                    &&& text::texts(command.arguments@) == runner::planned_arguments(*self)
                    &&& match command.current_dir {
                        Some(directory) => runner::planned_directory(*self) == Some(directory@),
                        None => runner::planned_directory(*self) is None,
                    }
                    &&& phase is MakeReceipts
                },
                Err(error) => runner::request_refusal(*self, platform) == Some(error),
            },
    {
        let command: Invocation = self.invocation(platform)?;
        Ok((command, RunPhase::MakeReceipts))
    }

    /// The phase that follows once a step is done.
    pub fn advance(&self, phase: RunPhase, event: RunEvent) -> (next: RunPhase)
        requires
            fits(phase, event),
        ensures
            follows(*self, phase, event, next),
    {
        match (phase, event) {
            (RunPhase::MakeReceipts, RunEvent::Succeeded) => RunPhase::WriteRequest,
            (RunPhase::WriteRequest, RunEvent::Succeeded) => RunPhase::WriteInvocation,
            (RunPhase::WriteInvocation, RunEvent::Succeeded) => RunPhase::OpenStdout,
            (RunPhase::OpenStdout, RunEvent::Succeeded) => RunPhase::OpenStderr,
            (RunPhase::OpenStderr, RunEvent::Succeeded) => RunPhase::Start,
            (RunPhase::Start, RunEvent::Started(pid)) => RunPhase::RecordPid { pid },
            (RunPhase::Start, RunEvent::Failed) => RunPhase::WriteStartFailure,
            (RunPhase::WriteStartFailure, RunEvent::Succeeded) => RunPhase::Failed(
                RunFailure::Start,
            ),
            (RunPhase::RecordPid { pid }, RunEvent::Succeeded) => RunPhase::Await {
                pid,
                recorded: true,
            },
            (RunPhase::RecordPid { pid }, RunEvent::Failed) => RunPhase::Await {
                pid,
                recorded: false,
            },
            (RunPhase::Await { pid, recorded }, RunEvent::Exited(exit)) => if recorded {
                RunPhase::ReadReport { pid, exit }
            } else {
                RunPhase::Failed(RunFailure::PidRecord)
            },
            (
                RunPhase::ReadReport { pid, exit },
                RunEvent::Captured(captured),
            ) => RunPhase::WriteOutcome(self.conclude(pid, exit, captured)),
            (RunPhase::WriteOutcome(outcome), RunEvent::Succeeded) => RunPhase::Finished(outcome),
            _ => RunPhase::Failed(RunFailure::LastStep),
        }
    }
}

/// A run has an outcome only if its worker has ended and its process number
/// was written down.
pub proof fn law_outcome_needs_an_ended_worker(
    request: RunnerRequest,
    phase: RunPhase,
    event: RunEvent,
    next: RunPhase,
)
    requires
        follows(request, phase, event, next),
    ensures
        next is Finished ==> phase is WriteOutcome,
        next is WriteOutcome ==> phase is ReadReport,
        next is ReadReport ==> (phase matches RunPhase::Await { recorded, .. } && recorded)
            && event is Exited,
{
}

/// Whether `phases` is the course of a run, from its first phase on, in which
/// `events` came of the phases.
pub open spec fn is_course(
    request: RunnerRequest,
    phases: Seq<RunPhase>,
    events: Seq<RunEvent>,
) -> bool {
    &&& phases.len() == events.len() + 1
    &&& phases[0] is MakeReceipts
    &&& forall|k: int|
        0 <= k < events.len() ==> fits(phases[k], #[trigger] events[k]) && follows(
            request,
            phases[k],
            events[k],
            phases[k + 1],
        )
}

/// In a run that is over, a worker that was started was waited for.
pub proof fn law_started_worker_was_waited_for(
    request: RunnerRequest,
    phases: Seq<RunPhase>,
    events: Seq<RunEvent>,
    i: int,
)
    requires
        is_course(request, phases, events),
        over(phases.last()),
        0 <= i < phases.len(),
        worker_runs(phases[i]),
    ensures
        exists|j: int|
            i <= j < events.len() && #[trigger] phases[j] is Await && (events[j] is Exited
                || events[j] is Failed),
{
    assert(i < events.len());
    assert(fits(phases[i], events[i]));
    if phases[i] is RecordPid {
        let j = i + 1;
        assert(phases[j] is Await);
        assert(j < events.len());
        assert(fits(phases[j], events[j]));
    } else {
        assert(phases[i] is Await);
    }
}

/// A worker runs only where the receipts of what it does were made before, in
/// this order.
pub proof fn law_running_worker_has_its_receipts(
    request: RunnerRequest,
    phases: Seq<RunPhase>,
    events: Seq<RunEvent>,
    i: int,
)
    requires
        is_course(request, phases, events),
        0 <= i < phases.len(),
        worker_runs(phases[i]),
    ensures
        6 <= i,
        phases[0] is MakeReceipts && events[0] is Succeeded,
        phases[1] is WriteRequest && events[1] is Succeeded,
        phases[2] is WriteInvocation && events[2] is Succeeded,
        phases[3] is OpenStdout && events[3] is Succeeded,
        phases[4] is OpenStderr && events[4] is Succeeded,
        phases[5] is Start && events[5] is Started,
{
    lemma_receipts_step(request, phases, events, i, 0);
    lemma_receipts_step(request, phases, events, i, 1);
    lemma_receipts_step(request, phases, events, i, 2);
    lemma_receipts_step(request, phases, events, i, 3);
    lemma_receipts_step(request, phases, events, i, 4);
    assert(fits(phases[5], events[5]));
    assert(follows(request, phases[5], events[5], phases[6]));
    if !(events[5] is Started) {
        assert(fits(phases[6], events[6]));
        assert(follows(request, phases[6], events[6], phases[7]));
        assert(over(phases[7]));
        assert(7 < events.len() ==> fits(phases[7], events[7]));
    }
}

/// The phase before the worker is started that comes at the given place.
spec fn receipt_phase(phase: RunPhase, k: int) -> bool {
    if k == 0 {
        phase is MakeReceipts
    } else if k == 1 {
        phase is WriteRequest
    } else if k == 2 {
        phase is WriteInvocation
    } else if k == 3 {
        phase is OpenStdout
    } else if k == 4 {
        phase is OpenStderr
    } else {
        phase is Start
    }
}

/// A receipt that could not be made ends the run.
proof fn lemma_receipts_step(
    request: RunnerRequest,
    phases: Seq<RunPhase>,
    events: Seq<RunEvent>,
    i: int,
    k: int,
)
    requires
        is_course(request, phases, events),
        0 <= k <= 4,
        k <= i < phases.len(),
        worker_runs(phases[i]),
        receipt_phase(phases[k], k),
    ensures
        events[k] is Succeeded,
        receipt_phase(phases[k + 1], k + 1),
        k + 1 < i,
{
    assert(fits(phases[k], events[k]));
    assert(follows(request, phases[k], events[k], phases[k + 1]));
    if !(events[k] is Succeeded) {
        assert(over(phases[k + 1]));
        assert(k + 1 < events.len() ==> fits(phases[k + 1], events[k + 1]));
    }
}

} // verus!
