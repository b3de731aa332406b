//! Activity-event reporting: canonical event records, a human-readable log
//! line per event, a JSON wire payload, and a bounded-retry delivery protocol.
//!
//! The crate holds the pure, verified core of an event reporter: building a
//! timestamped record from one clock read, rendering the local-log line,
//! encoding the wire payload, and deciding the retry/timeout protocol state
//! machine. Performing the actual file append and HTTP requests is left to
//! the surrounding application.

pub mod delivery;
pub mod event;
pub mod payload;
pub mod report;
pub mod text;
pub mod timefmt;
