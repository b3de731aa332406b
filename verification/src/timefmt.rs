//! The clock model and the rendering of local time, UTC offset, and the
//! human-readable log line.

use vstd::prelude::*;
use vstd::string::StringExecFns;

use crate::event::EventType;
use crate::event::spec_label;
use crate::text::dec_seq;
use crate::text::push_dec;

verus! {

/// One reading of the machine's clock: absolute seconds since the Unix
/// epoch, the sub-second milliseconds, and the local UTC offset in seconds
/// at that instant. All three come from a single clock read, so the offset
/// and the timestamp describe the same instant.
#[derive(Clone, Copy, Debug)]
pub struct ClockReading {
    pub secs: i64,
    pub millis: u32,
    pub offset_secs: i32,
}

/// Bounds that every clock reading satisfies: milliseconds below two
/// seconds, and at or above one second only during a leap second — which
/// sits at second 59 of its minute, so milliseconds of 1000 and above come
/// only with a timestamp whose second of the minute is 59; an offset
/// strictly within one day; and seconds within the range of representable
/// dates (year -262143 through 262142).
pub open spec fn clock_wf(c: ClockReading) -> bool {
    &&& c.millis < 2000
    &&& c.millis >= 1000 ==> c.secs as int % 60 == 59
    &&& -86400 < c.offset_secs < 86400
    &&& -8334601228800 <= c.secs <= 8210266876799
}

/// Relies on `chrono::Local::now`: one clock read yields the timestamp, its
/// sub-second milliseconds, and the local UTC offset of the same instant.
/// The bounds hold of every reading: `timestamp_subsec_millis` is below
/// 1000 except during a leap second, where it stays below 2000, and a
/// `NaiveTime` admits such a leap-second value only at second 59 of a
/// minute, whose (non-leap) timestamp satisfies `rem_euclid(60) == 59`; a
/// `FixedOffset` is strictly within one day; and the stated timestamp range
/// is exactly that of chrono's representable dates, so every reading's
/// timestamp lies inside it. One caveat, inherited from the original's own
/// use of `Local::now`: on a machine whose clock is set before the Unix
/// epoch, chrono's `now` itself panics, so no reading is returned at all;
/// the bounds above are claimed only of readings that are returned.
#[verifier::external_body]
pub(crate) fn read_clock() -> (c: ClockReading)
    ensures
        clock_wf(c),
{
    let now = chrono::Local::now();
    ClockReading {
        secs: now.timestamp(),
        millis: now.timestamp_subsec_millis(),
        offset_secs: now.offset().local_minus_utc(),
    }
}

/// The text chrono renders for the instant `secs` + `nanos` at the fixed
/// offset `offset_secs`, in the pattern `YYYY/MM/DD-HH:MM:SS.mmm`. It is a
/// function of the three arguments alone.
pub uninterp spec fn local_time_text(secs: int, nanos: int, offset_secs: int) -> Seq<char>;

/// Relies on chrono (`DateTime::from_timestamp`, `FixedOffset::east_opt`,
/// `with_timezone`, `format`) to render the given instant as local wall
/// time in the pattern `YYYY/MM/DD-HH:MM:SS.mmm`. The preconditions keep
/// both constructors inside their validity ranges — a leap-second `nanos`
/// (1e9 and above) is valid only at second 59 of a minute — so neither
/// `unwrap` can fail; rendering near the range's edges uses chrono's own
/// overflow buffer and cannot fail either.
#[verifier::external_body]
pub(crate) fn format_local_time(secs: i64, nanos: u32, offset_secs: i32) -> (r: String)
    requires
        nanos < 2000000000,
        nanos >= 1000000000 ==> secs as int % 60 == 59,
        -86400 < offset_secs < 86400,
        -8334601228800 <= secs <= 8210266876799,
    ensures
        r@ == local_time_text(secs as int, nanos as int, offset_secs as int),
{
    let utc = chrono::DateTime::from_timestamp(secs, nanos).unwrap();
    let offset = chrono::FixedOffset::east_opt(offset_secs).unwrap();
    utc.with_timezone(&offset).format("%Y/%m/%d-%H:%M:%S%.3f").to_string()
}

/// The offset's whole hours, truncated toward zero: fractional-hour zones
/// lose their fraction by design (a documented precision loss).
pub open spec fn offset_hours(offset_secs: int) -> int {
    if offset_secs >= 0 {
        offset_secs / 3600
    } else {
        -((-offset_secs) / 3600)
    }
}

/// The textual UTC offset, e.g. `UTC+8`, `UTC-5`, `UTC+0`: the sign is
/// always present, hours are truncated toward zero and never zero-padded.
pub open spec fn utc_offset_seq(offset_secs: int) -> Seq<char> {
    if offset_hours(offset_secs) >= 0 {
        "UTC+"@ + dec_seq(offset_hours(offset_secs) as nat)
    } else {
        "UTC-"@ + dec_seq((-offset_hours(offset_secs)) as nat)
    }
}

/// Renders the textual UTC offset for an offset given in seconds.
pub fn utc_offset_string(offset_secs: i32) -> (r: String)
    ensures
        r@ == utc_offset_seq(offset_secs as int),
{
    let negative = offset_secs < 0;
    let magnitude: u64 = if negative {
        (-(offset_secs as i64)) as u64
    } else {
        offset_secs as u64
    };
    let hours: u64 = magnitude / 3600;
    proof {
        if negative {
            assert(hours as int == -offset_hours(offset_secs as int));
        } else {
            assert(hours as int == offset_hours(offset_secs as int));
        }
    }
    let mut s: String;
    if negative && hours > 0 {
        s = String::from_str("UTC-");
    } else {
        s = String::from_str("UTC+");
    }
    push_dec(&mut s, hours);
    s
}

/// The full local-log line for one event:
/// `<local-time> <offset> <display-label> <content>`.
pub open spec fn line_seq(kind: EventType, content: Seq<char>, now: ClockReading) -> Seq<char> {
    local_time_text(now.secs as int, now.millis as int * 1000000, now.offset_secs as int) + " "@
        + utc_offset_seq(now.offset_secs as int) + " "@ + spec_label(kind) + " "@ + content
}

/// Renders the local-log line for one event from a clock reading.
pub fn display_line(kind: &EventType, content: &str, now: &ClockReading) -> (r: String)
    requires
        clock_wf(*now),
    ensures
        r@ == line_seq(*kind, content@, *now),
{
    let nanos: u32 = now.millis * 1000000;
    let mut s = format_local_time(now.secs, nanos, now.offset_secs);
    s.append(" ");
    let offset = utc_offset_string(now.offset_secs);
    s.append(offset.as_str());
    s.append(" ");
    s.append(kind.as_str());
    s.append(" ");
    s.append(content);
    s
}

} // verus!
