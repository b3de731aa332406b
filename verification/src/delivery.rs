//! The bounded-retry, timeout-guarded remote delivery protocol.
//!
//! Delivery of one event makes at most [`MAX_ATTEMPTS`] attempts and stops
//! at the first response with a 2xx status. Any other status, any transport
//! error, and any expired deadline each count as one failed attempt. The
//! protocol is a pure state machine here; performing an attempt (the HTTP
//! send raced against a timer) is the surrounding application's job.

use vstd::prelude::*;

verus! {

/// The fixed attempt budget: attempts in total, not retries after a first
/// attempt.
pub const MAX_ATTEMPTS: u8 = 3;

/// What one delivery attempt observed, as handed back by whoever performed
/// the send.
#[derive(Clone, Copy, Debug, PartialEq, Eq, Structural)]
pub enum AttemptOutcome {
    /// A response arrived before the deadline, with this HTTP status code.
    Response { status: u16 },
    /// The send failed before any response arrived: connection,
    /// serialization or transport error.
    TransportFailed,
    /// The per-attempt deadline expired before a response arrived; the
    /// late response, if any, is abandoned.
    TimedOut,
}

/// The failure class of one unsuccessful attempt.
#[derive(Clone, Copy, Debug, PartialEq, Eq, Structural)]
pub enum AttemptFailure {
    /// Connection, serialization or send failure on one attempt.
    Transport,
    /// The per-attempt deadline was exceeded.
    Timeout,
    /// A response arrived but its status was outside the success range.
    Rejected { status: u16 },
}

/// An attempt succeeds exactly when a response arrived in time and its
/// status lies in the inclusive range 200 to 299.
pub open spec fn attempt_succeeds(o: AttemptOutcome) -> bool {
    match o {
        AttemptOutcome::Response { status } => 200 <= status <= 299,
        _ => false,
    }
}

/// The failure class of an outcome: `None` exactly for a success.
pub open spec fn spec_classify(o: AttemptOutcome) -> Option<AttemptFailure> {
    match o {
        AttemptOutcome::Response { status } => if 200 <= status <= 299 {
            None
        } else {
            Some(AttemptFailure::Rejected { status })
        },
        AttemptOutcome::TransportFailed => Some(AttemptFailure::Transport),
        AttemptOutcome::TimedOut => Some(AttemptFailure::Timeout),
    }
}

/// True exactly for a status in the inclusive success range 200 to 299.
pub fn is_success_status(status: u16) -> (r: bool)
    ensures
        r == (200 <= status <= 299),
{
    200 <= status && status <= 299
}

/// Whether this outcome ends delivery successfully.
pub fn attempt_succeeded(o: &AttemptOutcome) -> (r: bool)
    ensures
        r == attempt_succeeds(*o),
{
    match o {
        AttemptOutcome::Response { status } => is_success_status(*status),
        _ => false,
    }
}

/// Classifies one outcome: `None` for a success, otherwise the failure
/// class the operator is told about before the next attempt.
pub fn classify_attempt(o: &AttemptOutcome) -> (r: Option<AttemptFailure>)
    ensures
        r == spec_classify(*o),
{
    match o {
        AttemptOutcome::Response { status } => {
            if is_success_status(*status) {
                None
            } else {
                Some(AttemptFailure::Rejected { status: *status })
            }
        },
        AttemptOutcome::TransportFailed => Some(AttemptFailure::Transport),
        AttemptOutcome::TimedOut => Some(AttemptFailure::Timeout),
    }
}

/// Where delivery of one event stands.
#[derive(Clone, Copy, Debug, PartialEq, Eq, Structural)]
pub enum DeliveryStatus {
    /// Another attempt is owed; this many attempts have failed so far.
    Pending { attempts_made: u8 },
    /// A success ended delivery; this many attempts were made in total.
    Delivered { attempts_made: u8 },
    /// Every attempt in the budget failed; the event is lost for remote
    /// reporting but any local record of it stands.
    Exhausted,
}

/// Well-formedness of a delivery status: a pending delivery still has
/// budget left, and a delivered one used between one attempt and the whole
/// budget.
pub open spec fn status_wf(st: DeliveryStatus) -> bool {
    match st {
        DeliveryStatus::Pending { attempts_made } => attempts_made < MAX_ATTEMPTS,
        DeliveryStatus::Delivered { attempts_made } => 1 <= attempts_made <= MAX_ATTEMPTS,
        DeliveryStatus::Exhausted => true,
    }
}

/// How many attempts a status accounts for.
pub open spec fn attempts_of(st: DeliveryStatus) -> int {
    match st {
        DeliveryStatus::Pending { attempts_made } => attempts_made as int,
        DeliveryStatus::Delivered { attempts_made } => attempts_made as int,
        DeliveryStatus::Exhausted => MAX_ATTEMPTS as int,
    }
}

/// The protocol's transition: one recorded outcome either ends delivery
/// (success, or a spent budget) or leaves it pending with one more failed
/// attempt on the books.
pub open spec fn spec_record_attempt(st: DeliveryStatus, o: AttemptOutcome) -> DeliveryStatus {
    match st {
        DeliveryStatus::Pending { attempts_made } => if attempt_succeeds(o) {
            DeliveryStatus::Delivered { attempts_made: (attempts_made + 1) as u8 }
        } else if attempts_made + 1 >= MAX_ATTEMPTS {
            DeliveryStatus::Exhausted
        } else {
            DeliveryStatus::Pending { attempts_made: (attempts_made + 1) as u8 }
        },
        _ => st,
    }
}

/// The status delivery of one event starts from: no attempt made yet.
pub fn delivery_start() -> (st: DeliveryStatus)
    ensures
        st == (DeliveryStatus::Pending { attempts_made: 0u8 }),
        status_wf(st),
{
    DeliveryStatus::Pending { attempts_made: 0 }
}

/// Whether the protocol still owes an attempt.
pub fn wants_attempt(st: &DeliveryStatus) -> (r: bool)
    ensures
        r == (*st is Pending),
{
    match st {
        DeliveryStatus::Pending { .. } => true,
        _ => false,
    }
}

/// Records the outcome of one attempt and moves the protocol forward:
/// delivery stops at the first success, continues after a failure while
/// budget remains, and is exhausted when the last budgeted attempt fails.
pub fn record_attempt(st: &DeliveryStatus, outcome: &AttemptOutcome) -> (next: DeliveryStatus)
    requires
        *st is Pending,
        status_wf(*st),
    ensures
        next == spec_record_attempt(*st, *outcome),
        status_wf(next),
        attempts_of(next) == attempts_of(*st) + 1 || (next is Exhausted && attempts_of(*st) + 1
            == MAX_ATTEMPTS as int),
        next is Delivered <==> attempt_succeeds(*outcome),
{
    match st {
        DeliveryStatus::Pending { attempts_made } => {
            let made = *attempts_made + 1;
            if attempt_succeeded(outcome) {
                DeliveryStatus::Delivered { attempts_made: made }
            } else if made >= MAX_ATTEMPTS {
                DeliveryStatus::Exhausted
            } else {
                DeliveryStatus::Pending { attempts_made: made }
            }
        },
        _ => *st,
    }
}

/// Runs the whole delivery protocol against a row of prepared attempt
/// outcomes, as a stub endpoint would produce them: outcome `i` is what
/// attempt `i + 1` would observe. At most [`MAX_ATTEMPTS`] outcomes are
/// consumed, delivery stops at the first success, and a spent budget ends
/// in exhaustion.
pub fn run_delivery(outcomes: &Vec<AttemptOutcome>) -> (r: DeliveryStatus)
    requires
        outcomes@.len() >= MAX_ATTEMPTS as int,
    ensures
        !(r is Pending),
        status_wf(r),
        r is Delivered ==> {
            &&& 1 <= attempts_of(r) <= MAX_ATTEMPTS as int
            &&& attempt_succeeds(outcomes@[attempts_of(r) - 1])
            &&& forall|j: int| 0 <= j < attempts_of(r) - 1 ==> !attempt_succeeds(outcomes@[j])
        },
        r is Exhausted ==> forall|j: int|
            0 <= j < MAX_ATTEMPTS as int ==> !attempt_succeeds(outcomes@[j]),
{
    let mut st = delivery_start();
    let mut i: usize = 0;
    while wants_attempt(&st)
        invariant
            status_wf(st),
            outcomes@.len() >= MAX_ATTEMPTS as int,
            i <= MAX_ATTEMPTS as int,
            st is Pending ==> i == attempts_of(st) && i < MAX_ATTEMPTS as int,
            st is Pending ==> forall|j: int| 0 <= j < i ==> !attempt_succeeds(outcomes@[j]),
            st is Delivered ==> {
                &&& i == attempts_of(st)
                &&& 1 <= i
                &&& attempt_succeeds(outcomes@[i - 1])
                &&& forall|j: int| 0 <= j < i - 1 ==> !attempt_succeeds(outcomes@[j])
            },
            st is Exhausted ==> i == MAX_ATTEMPTS as int && forall|j: int|
                0 <= j < i ==> !attempt_succeeds(outcomes@[j]),
        decreases MAX_ATTEMPTS as int - i,
    {
        let outcome = outcomes[i];
        st = record_attempt(&st, &outcome);
        i = i + 1;
    }
    st
}

} // verus!
