//! The per-event reporting orchestrator.
//!
//! One reporting call builds the canonical record and the local-log line
//! from a single clock read, then drives two independent best-effort
//! branches: the local append and the remote delivery protocol. Neither
//! branch's failure blocks or cancels the other, and nothing is rolled
//! back; the orchestrator only summarizes both outcomes for observability.

use vstd::prelude::*;
use vstd::string::StringExecFns;

use crate::delivery::AttemptOutcome;
use crate::delivery::DeliveryStatus;
use crate::delivery::MAX_ATTEMPTS;
use crate::delivery::attempt_succeeds;
use crate::delivery::attempts_of;
use crate::delivery::run_delivery;
use crate::delivery::record_attempt;
use crate::delivery::spec_record_attempt;
use crate::delivery::status_wf;
use crate::delivery::wants_attempt;
use crate::event::EventRecord;
use crate::event::EventType;
use crate::timefmt::ClockReading;
use crate::timefmt::clock_wf;
use crate::timefmt::display_line;
use crate::timefmt::line_seq;
use crate::timefmt::read_clock;
use crate::timefmt::utc_offset_seq;
use crate::timefmt::utc_offset_string;

verus! {

/// Builds the canonical record for one event from a single clock reading:
/// `occurred_at` and `utc_offset` both derive from the same `now`, so they
/// describe the same instant. Externally supplied identity strings are
/// passed through unchanged, empty or not.
pub fn build_record(
    kind: EventType,
    content: String,
    device_id: String,
    device_name: String,
    now: &ClockReading,
) -> (r: EventRecord)
    ensures
        r.event_kind == kind,
        r.content == content,
        r.device_id == device_id,
        r.device_name == device_name,
        r.occurred_at == now.secs,
        r.utc_offset@ == utc_offset_seq(now.offset_secs as int),
{
    let utc_offset = utc_offset_string(now.offset_secs);
    EventRecord {
        device_id,
        device_name,
        event_kind: kind,
        content,
        occurred_at: now.secs,
        utc_offset,
    }
}

/// What it means for a record and a display line to have been captured
/// from the one clock reading `c`: every time-derived part of both comes
/// from that same reading.
pub open spec fn captured_from(
    rec: EventRecord,
    line: Seq<char>,
    kind: EventType,
    content: Seq<char>,
    device_id: Seq<char>,
    device_name: Seq<char>,
    c: ClockReading,
) -> bool {
    &&& clock_wf(c)
    &&& rec.event_kind == kind
    &&& rec.content@ == content
    &&& rec.device_id@ == device_id
    &&& rec.device_name@ == device_name
    &&& rec.occurred_at == c.secs
    &&& rec.utc_offset@ == utc_offset_seq(c.offset_secs as int)
    &&& line == line_seq(kind, content, c)
}

/// Both time-derived parts of a capture come from the one clock reading:
/// whenever a record and its line were captured from reading `c`, the
/// recorded timestamp is `c`'s seconds, the recorded offset text re-derives
/// exactly from `c`'s offset (truncated to whole hours), and the line shows
/// the same instant and the same offset.
pub proof fn lemma_capture_single_clock_read(
    rec: EventRecord,
    line: Seq<char>,
    kind: EventType,
    content: Seq<char>,
    device_id: Seq<char>,
    device_name: Seq<char>,
    c: ClockReading,
)
    requires
        captured_from(rec, line, kind, content, device_id, device_name, c),
    ensures
        rec.occurred_at == c.secs,
        rec.utc_offset@ == utc_offset_seq(c.offset_secs as int),
        line == line_seq(kind, content, c),
{
}

/// Reads the clock once and builds both the canonical record and the
/// local-log line for one event from that single reading.
pub fn capture_event(kind: &EventType, content: &str, device_id: &str, device_name: &str) -> (r: (
    EventRecord,
    String,
))
    ensures
        exists|c: ClockReading|
            captured_from(r.0, r.1@, *kind, content@, device_id@, device_name@, c),
{
    let now = read_clock();
    let line = display_line(kind, content, &now);
    let rec = build_record(
        *kind,
        String::from_str(content),
        String::from_str(device_id),
        String::from_str(device_name),
        &now,
    );
    let result = (rec, line);
    proof {
        assert(exists|c: ClockReading|
            captured_from(result.0, result.1@, *kind, content@, device_id@, device_name@, c)) by {
            assert(captured_from(
                result.0,
                result.1@,
                *kind,
                content@,
                device_id@,
                device_name@,
                now,
            ));
        }
    }
    result
}

/// The outcome summary of one reporting call: how each independent branch
/// ended. It exists for observability only and is never an error to the
/// caller.
#[derive(Clone, Copy, Debug, PartialEq, Eq, Structural)]
pub struct ReportSummary {
    /// Whether the local append succeeded.
    pub local_ok: bool,
    /// Where remote delivery ended: delivered or exhausted.
    pub remote: DeliveryStatus,
}

/// Where one reporting call stands after the record is built.
#[derive(Clone, Copy, Debug, PartialEq, Eq, Structural)]
pub enum ReportPhase {
    /// The local line is owed to the local sink.
    LocalWrite,
    /// The local branch completed (well or not); delivery is in progress.
    Remote { local_ok: bool, status: DeliveryStatus },
    /// Both branches completed.
    Done { summary: ReportSummary },
}

/// Well-formedness of a phase: while delivery is in progress it still owes
/// an attempt within budget.
pub open spec fn phase_wf(p: ReportPhase) -> bool {
    match p {
        ReportPhase::Remote { local_ok, status } => status is Pending && status_wf(status),
        _ => true,
    }
}

/// The phase a reporting call starts from once its record is built: the
/// local write comes first.
pub fn report_start() -> (p: ReportPhase)
    ensures
        p == ReportPhase::LocalWrite,
        phase_wf(p),
{
    ReportPhase::LocalWrite
}

/// Records how the local append went and moves on to remote delivery.
/// Whatever the local outcome — success or failure — delivery follows with
/// its full attempt budget: a local-sink failure never blocks or cancels a
/// remote attempt.
pub fn after_local_write(p: &ReportPhase, local_ok: bool) -> (q: ReportPhase)
    requires
        *p is LocalWrite,
    ensures
        q == (ReportPhase::Remote {
            local_ok,
            status: DeliveryStatus::Pending { attempts_made: 0u8 },
        }),
        phase_wf(q),
{
    ReportPhase::Remote { local_ok, status: DeliveryStatus::Pending { attempts_made: 0 } }
}

/// The phase transition for one recorded remote attempt: the delivery
/// protocol moves one step, the local verdict is carried along untouched,
/// and the call is done exactly when delivery ends.
pub open spec fn spec_after_remote_attempt(p: ReportPhase, o: AttemptOutcome) -> ReportPhase {
    match p {
        ReportPhase::Remote { local_ok, status } => {
            let next = spec_record_attempt(status, o);
            if next is Pending {
                ReportPhase::Remote { local_ok, status: next }
            } else {
                ReportPhase::Done { summary: ReportSummary { local_ok, remote: next } }
            }
        },
        _ => p,
    }
}

/// Records the outcome of one remote attempt. The remote branch's outcome
/// never rewrites the local branch's verdict, and vice versa.
pub fn after_remote_attempt(p: &ReportPhase, outcome: &AttemptOutcome) -> (q: ReportPhase)
    requires
        *p is Remote,
        phase_wf(*p),
    ensures
        q == spec_after_remote_attempt(*p, *outcome),
        phase_wf(q),
{
    match p {
        ReportPhase::Remote { local_ok, status } => {
            let next = record_attempt(status, outcome);
            if wants_attempt(&next) {
                ReportPhase::Remote { local_ok: *local_ok, status: next }
            } else {
                ReportPhase::Done { summary: ReportSummary { local_ok: *local_ok, remote: next } }
            }
        },
        _ => *p,
    }
}

/// Runs one whole reporting call after the local branch, against a row of
/// attempt outcomes that plays the remote endpoint's part. The summary
/// keeps the local result unchanged whatever the remote outcomes, and the
/// remote result follows from the outcomes alone whatever the local
/// result: neither branch influences the other.
pub fn run_report(local_ok: bool, outcomes: &Vec<AttemptOutcome>) -> (s: ReportSummary)
    requires
        outcomes@.len() >= MAX_ATTEMPTS as int,
    ensures
        s.local_ok == local_ok,
        !(s.remote is Pending),
        status_wf(s.remote),
        s.remote is Delivered ==> {
            &&& 1 <= attempts_of(s.remote) <= MAX_ATTEMPTS as int
            &&& attempt_succeeds(outcomes@[attempts_of(s.remote) - 1])
            &&& forall|j: int|
                0 <= j < attempts_of(s.remote) - 1 ==> !attempt_succeeds(outcomes@[j])
        },
        s.remote is Exhausted ==> forall|j: int|
            0 <= j < MAX_ATTEMPTS as int ==> !attempt_succeeds(outcomes@[j]),
{
    let remote = run_delivery(outcomes);
    ReportSummary { local_ok, remote }
}

/// One reporting call against an in-memory journal standing for the local
/// sink: exactly one line — the event's own, in the fixed format — is
/// appended after all existing lines, whatever the remote outcomes, and
/// the remote protocol runs on its own beside it.
pub fn report_with_journal(
    journal: &mut Vec<String>,
    kind: &EventType,
    content: &str,
    now: &ClockReading,
    outcomes: &Vec<AttemptOutcome>,
) -> (s: ReportSummary)
    requires
        clock_wf(*now),
        outcomes@.len() >= MAX_ATTEMPTS as int,
    ensures
        final(journal)@.len() == old(journal)@.len() + 1,
        forall|j: int| 0 <= j < old(journal)@.len() ==> final(journal)@[j] == old(journal)@[j],
        final(journal)@.last()@ == line_seq(*kind, content@, *now),
        s.local_ok,
        !(s.remote is Pending),
        status_wf(s.remote),
        s.remote is Delivered ==> {
            &&& 1 <= attempts_of(s.remote) <= MAX_ATTEMPTS as int
            &&& attempt_succeeds(outcomes@[attempts_of(s.remote) - 1])
            &&& forall|j: int|
                0 <= j < attempts_of(s.remote) - 1 ==> !attempt_succeeds(outcomes@[j])
        },
        s.remote is Exhausted ==> forall|j: int|
            0 <= j < MAX_ATTEMPTS as int ==> !attempt_succeeds(outcomes@[j]),
{
    let line = display_line(kind, content, now);
    journal.push(line);
    run_report(true, outcomes)
}

} // verus!
