//! The JSON wire payload for one event record.
//!
//! The payload is a single JSON object with the fields `device_id`,
//! `device_name`, `event_type`, `content`, `timestamp` and `timezone`, in
//! that order; every string field is escaped as JSON requires.

use vstd::prelude::*;
use vstd::string::StrSliceExecFns;
use vstd::string::StringExecFns;

use crate::event::EventRecord;
use crate::event::spec_tag;
use crate::text::int_dec_seq;
use crate::text::push_char;
use crate::text::push_i64;

verus! {

/// The lowercase hexadecimal digit character for a value in `0 ..= 15`.
pub open spec fn hex_digit(d: int) -> char {
    if d == 0 {
        '0'
    } else if d == 1 {
        '1'
    } else if d == 2 {
        '2'
    } else if d == 3 {
        '3'
    } else if d == 4 {
        '4'
    } else if d == 5 {
        '5'
    } else if d == 6 {
        '6'
    } else if d == 7 {
        '7'
    } else if d == 8 {
        '8'
    } else if d == 9 {
        '9'
    } else if d == 10 {
        'a'
    } else if d == 11 {
        'b'
    } else if d == 12 {
        'c'
    } else if d == 13 {
        'd'
    } else if d == 14 {
        'e'
    } else {
        'f'
    }
}

/// How one character appears inside a JSON string literal: quotes and
/// backslashes are escaped, the common control characters get their short
/// escapes, the remaining control characters get a `\u00XX` escape, and
/// every other character stands as itself.
pub open spec fn json_escape_char(c: char) -> Seq<char> {
    if c == '"' {
        seq!['\\', '"']
    } else if c == '\\' {
        seq!['\\', '\\']
    } else if c == '\u{8}' {
        seq!['\\', 'b']
    } else if c == '\t' {
        seq!['\\', 't']
    } else if c == '\n' {
        seq!['\\', 'n']
    } else if c == '\u{c}' {
        seq!['\\', 'f']
    } else if c == '\r' {
        seq!['\\', 'r']
    } else if (c as int) < 32 {
        seq!['\\', 'u', '0', '0', hex_digit(c as int / 16), hex_digit(c as int % 16)]
    } else {
        seq![c]
    }
}

/// The JSON escaping of a whole string, character by character.
pub open spec fn json_escape(s: Seq<char>) -> Seq<char>
    decreases s.len(),
{
    if s.len() == 0 {
        Seq::<char>::empty()
    } else {
        json_escape(s.drop_last()) + json_escape_char(s.last())
    }
}

/// A JSON string literal: the escaped text between double quotes.
pub open spec fn json_string_seq(s: Seq<char>) -> Seq<char> {
    seq!['"'] + json_escape(s) + seq!['"']
}

/// The lowercase hexadecimal digit character for one value below 16.
fn hex_digit_char(d: u32) -> (c: char)
    requires
        d < 16,
    ensures
        c == hex_digit(d as int),
{
    if d == 0 {
        '0'
    } else if d == 1 {
        '1'
    } else if d == 2 {
        '2'
    } else if d == 3 {
        '3'
    } else if d == 4 {
        '4'
    } else if d == 5 {
        '5'
    } else if d == 6 {
        '6'
    } else if d == 7 {
        '7'
    } else if d == 8 {
        '8'
    } else if d == 9 {
        '9'
    } else if d == 10 {
        'a'
    } else if d == 11 {
        'b'
    } else if d == 12 {
        'c'
    } else if d == 13 {
        'd'
    } else if d == 14 {
        'e'
    } else {
        'f'
    }
}

/// Appends the JSON escaping of one character to `s`.
fn push_escaped_char(s: &mut String, c: char)
    ensures
        final(s)@ == old(s)@ + json_escape_char(c),
{
    if c == '"' {
        push_char(s, '\\');
        push_char(s, '"');
    } else if c == '\\' {
        push_char(s, '\\');
        push_char(s, '\\');
    } else if c == '\u{8}' {
        push_char(s, '\\');
        push_char(s, 'b');
    } else if c == '\t' {
        push_char(s, '\\');
        push_char(s, 't');
    } else if c == '\n' {
        push_char(s, '\\');
        push_char(s, 'n');
    } else if c == '\u{c}' {
        push_char(s, '\\');
        push_char(s, 'f');
    } else if c == '\r' {
        push_char(s, '\\');
        push_char(s, 'r');
    } else if (c as u32) < 32 {
        push_char(s, '\\');
        push_char(s, 'u');
        push_char(s, '0');
        push_char(s, '0');
        let code = c as u32;
        let high = hex_digit_char(code / 16);
        push_char(s, high);
        let low = hex_digit_char(code % 16);
        push_char(s, low);
    } else {
        push_char(s, c);
    }
    assert(s@ =~= old(s)@ + json_escape_char(c));
}

/// Appends a JSON string literal holding `v`, escaped, to `s`.
fn push_json_string(s: &mut String, v: &str)
    ensures
        final(s)@ == old(s)@ + json_string_seq(v@),
{
    push_char(s, '"');
    let n = v.unicode_len();
    let mut i: usize = 0;
    while i < n
        invariant
            i <= n,
            n == v@.len(),
            s@ == old(s)@ + seq!['"'] + json_escape(v@.subrange(0, i as int)),
        decreases n - i,
    {
        let c = v.get_char(i);
        push_escaped_char(s, c);
        proof {
            assert(v@.subrange(0, i + 1 as int).drop_last() =~= v@.subrange(0, i as int));
            assert(v@.subrange(0, i + 1 as int).last() == v@[i as int]);
            assert(json_escape(v@.subrange(0, i + 1 as int)) == json_escape(
                v@.subrange(0, i as int),
            ) + json_escape_char(v@[i as int]));
            assert(s@ =~= old(s)@ + seq!['"'] + json_escape(v@.subrange(0, i + 1 as int)));
        }
        i = i + 1;
    }
    push_char(s, '"');
    proof {
        assert(v@.subrange(0, n as int) =~= v@);
        assert(s@ =~= old(s)@ + json_string_seq(v@));
    }
}

/// The full wire payload for one record: a JSON object with exactly the
/// fields `device_id`, `device_name`, `event_type`, `content`, `timestamp`
/// and `timezone`, in that order.
pub open spec fn payload_seq(r: EventRecord) -> Seq<char> {
    "{\"device_id\":"@ + json_string_seq(r.device_id@) + ",\"device_name\":"@ + json_string_seq(
        r.device_name@,
    ) + ",\"event_type\":"@ + json_string_seq(spec_tag(r.event_kind)) + ",\"content\":"@
        + json_string_seq(r.content@) + ",\"timestamp\":"@ + int_dec_seq(r.occurred_at as int)
        + ",\"timezone\":"@ + json_string_seq(r.utc_offset@) + "}"@
}

/// Serializes one event record as its JSON wire payload. The whole record
/// is rendered in one piece; no partial payload exists.
pub fn payload_json(r: &EventRecord) -> (out: String)
    ensures
        out@ == payload_seq(*r),
{
    let mut s = String::from_str("{\"device_id\":");
    push_json_string(&mut s, r.device_id.as_str());
    s.append(",\"device_name\":");
    push_json_string(&mut s, r.device_name.as_str());
    s.append(",\"event_type\":");
    push_json_string(&mut s, r.event_kind.as_event_type());
    s.append(",\"content\":");
    push_json_string(&mut s, r.content.as_str());
    s.append(",\"timestamp\":");
    push_i64(&mut s, r.occurred_at);
    s.append(",\"timezone\":");
    push_json_string(&mut s, r.utc_offset.as_str());
    s.append("}");
    proof {
        assert(s@ =~= payload_seq(*r));
    }
    s
}

} // verus!
