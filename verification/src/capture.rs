//! Reading what a worker wrote, and the conclusion drawn from it.
//!
//! A worker's output is read to its end, chunk by chunk. All of it goes into
//! the digest of the receipt; of the bytes themselves no more is kept than is
//! needed to see that the report is too long.
use vstd::prelude::*;

use crate::digest;
use crate::json;
use crate::json::{Json, JsonTree};
use crate::report;
use crate::report::RunOutcome;
use crate::runner::RunnerRequest;
use crate::text;

verus! {

/// The longest report of a native or plain emulated run.
pub const MAX_REPORT_BYTES: u64 = 0x40_0000;

/// The longest receipt of a recovery run: eight MiB and the newline that its
/// printing adds.
pub const MAX_RECOVERY_REPORT_BYTES: u64 = 0x80_0001;

/// The bytes kept of an output: one more than the limit at most.
pub open spec fn kept_bytes(output: Seq<u8>, limit: u64) -> Seq<u8> {
    if output.len() <= limit {
        output
    } else {
        output.take(limit + 1)
    }
}

/// A worker's output while it is read.
pub struct ReportCapture {
    limit: u64,
    kept: Vec<u8>,
    seen: u64,
    state: sha2::Sha256,
}

/// A worker's output once it is read.
#[derive(Debug, Clone, PartialEq, Eq)]
pub struct CapturedReport {
    /// The bytes kept.
    pub bytes: Vec<u8>,
    /// The digest of the whole output, in hexadecimal digits.
    pub sha256: String,
}

impl ReportCapture {
    /// What the worker wrote so far.
    pub closed spec fn output(&self) -> Seq<u8> {
        digest::absorbed(self.state)
    }

    /// How long the report may be.
    pub closed spec fn limit(&self) -> u64 {
        self.limit
    }

    /// What holds of every capture.
    pub closed spec fn well_formed(&self) -> bool {
        &&& self.limit < usize::MAX
        &&& self.limit < u64::MAX
        &&& self.kept@ == kept_bytes(self.output(), self.limit)
        &&& self.seen == self.output().len()
        &&& self.seen <= digest::SHA256_MAX_BYTES
    }

    /// A capture of nothing.
    pub fn new(limit: u64) -> (capture: Self)
        requires
            limit < usize::MAX,
            limit < u64::MAX,
        ensures
            capture.well_formed(),
            capture.output().len() == 0,
            capture.limit() == limit,
    {
        ReportCapture { limit, kept: Vec::new(), seen: 0, state: digest::new_state() }
    }

    /// How many more bytes can be taken in.
    pub fn room(&self) -> (room: u64)
        requires
            self.well_formed(),
        ensures
            room == digest::SHA256_MAX_BYTES - self.output().len(),
    {
        digest::SHA256_MAX_BYTES - self.seen
    }

    /// Takes in the next chunk of the output.
    pub fn absorb(&mut self, chunk: &[u8])
        requires
            old(self).well_formed(),
            old(self).output().len() + chunk@.len() <= digest::SHA256_MAX_BYTES,
        ensures
            final(self).well_formed(),
            final(self).output() == old(self).output() + chunk@,
            final(self).limit() == old(self).limit(),
    {
        let ghost before = self.output();
        digest::update_state(&mut self.state, chunk);
        let remaining: usize = (self.limit as usize + 1) - self.kept.len();
        let count: usize = if chunk.len() < remaining {
            chunk.len()
        } else {
            remaining
        };
        self.kept.extend_from_slice(vstd::slice::slice_subrange(chunk, 0, count));
        self.seen = self.seen + chunk.len() as u64;
        assert(self.kept@ =~= kept_bytes(before + chunk@, self.limit));
    }

    /// What was captured, once the output has ended.
    pub fn finish(self) -> (captured: CapturedReport)
        requires
            self.well_formed(),
        ensures
            captured.bytes@ == kept_bytes(self.output(), self.limit()),
            captured.sha256@ == text::hex(digest::sha256(self.output())),
    {
        let digits: String = text::hex_text(digest::finish_state(self.state).as_slice());
        CapturedReport { bytes: self.kept, sha256: digits }
    }
}

/// What the attempt to read a report amounts to: the document, or why there is
/// none. An attempt to read a report that is too long is not made.
pub open spec fn report_or_reason(
    bytes: Seq<u8>,
    limit: u64,
    parsed: Result<JsonTree, Seq<char>>,
) -> Result<JsonTree, Seq<char>> {
    if bytes.len() > limit {
        Err("worker report exceeds "@ + text::decimal((limit / 0x10_0000) as nat) + " MiB"@)
    } else {
        match parsed {
            Ok(tree) => Ok(tree),
            Err(reason) => Err("worker did not return valid JSON: "@ + reason),
        }
    }
}

/// Puts the reason for which a report could not be parsed into words.
pub fn parsed_report(parsed: Result<Json, String>) -> (report: Result<Json, String>)
    ensures
        json::json_outcome(report) == match json::json_outcome(parsed) {
            Ok(tree) => Ok(tree),
            Err(reason) => Err("worker did not return valid JSON: "@ + reason),
        },
{
    match parsed {
        Ok(json) => Ok(json),
        Err(reason) => {
            let mut words: String = "worker did not return valid JSON: ".to_owned();
            words.append(reason.as_str());
            Err(words)
        },
    }
}

/// Reads a report from the bytes kept of an output.
pub fn read_report(bytes: &[u8], limit: u64) -> (report: Result<Json, String>)
    ensures
        json::json_outcome(report) == report_or_reason(bytes@, limit, json::parsed_json(bytes@)),
{
    if bytes.len() as u64 > limit {
        let mut words: String = "worker report exceeds ".to_owned();
        let mib: String = text::decimal_text(limit / 0x10_0000);
        words.append(mib.as_str());
        words.append(" MiB");
        return Err(words);
    }
    parsed_report(Json::from_slice(bytes))
}

impl RunnerRequest {
    /// How long the report of this request may be.
    pub open spec fn report_limit_of(&self) -> u64 {
        if self.backend is TcgRecovery {
            MAX_RECOVERY_REPORT_BYTES
        } else {
            MAX_REPORT_BYTES
        }
    }

    /// How long the report of this request may be.
    pub fn report_limit(&self) -> (limit: u64)
        ensures
            limit == self.report_limit_of(),
    {
        if self.backend.is_recovery() {
            MAX_RECOVERY_REPORT_BYTES
        } else {
            MAX_REPORT_BYTES
        }
    }

    /// Concludes a run: the worker with process number `pid` has ended with
    /// `exit` and its output was captured.
    pub fn conclude(&self, pid: u32, exit: Option<i32>, captured: CapturedReport) -> (outcome:
        RunOutcome)
        ensures
            concludes(outcome, *self, pid, exit, captured),
    {
        let parsed: Result<Json, String> = read_report(
            captured.bytes.as_slice(),
            self.report_limit(),
        );
        let mut outcome: RunOutcome = report::evaluate_report(self, exit, parsed);
        outcome.runner_pid = pid;
        outcome.stdout_sha256 = captured.sha256;
        outcome
    }
}

/// Whether `outcome` is the conclusion of a run of `request` by the worker
/// with process number `pid`, which ended with `exit` and wrote `captured`.
pub open spec fn concludes(
    outcome: RunOutcome,
    request: RunnerRequest,
    pid: u32,
    exit: Option<i32>,
    captured: CapturedReport,
) -> bool {
    let read = report_or_reason(
        captured.bytes@,
        request.report_limit_of(),
        json::parsed_json(captured.bytes@),
    );
    &&& report::claims(outcome) == report::report_verdict(request, exit, read)
    &&& report::records(outcome, request, exit, read)
    &&& outcome.runner_pid == pid
    &&& outcome.stdout_sha256@ == captured.sha256@
}

/// A report over the limit is not read, and proves nothing.
pub proof fn law_oversized_report_proves_nothing(
    request: RunnerRequest,
    exit: Option<i32>,
    output: Seq<u8>,
    parsed: Result<JsonTree, Seq<char>>,
)
    requires
        output.len() > request.report_limit_of(),
    ensures
        ({
            let bytes = kept_bytes(output, request.report_limit_of());
            let read = report_or_reason(bytes, request.report_limit_of(), parsed);
            &&& read is Err
            &&& !report::report_verdict(request, exit, read).runtime
            &&& !report::report_verdict(request, exit, read).verified
            &&& report::report_verdict(request, exit, read).failure == Some(read->Err_0)
        }),
{
    let bytes = kept_bytes(output, request.report_limit_of());
    let read = report_or_reason(bytes, request.report_limit_of(), parsed);
    report::law_unreadable_report_proves_nothing(request, exit, read->Err_0);
}

} // verus!
