//! Small verified text helpers: decimal rendering of integers and a trusted
//! wrapper for pushing one character onto a `String`.

use vstd::prelude::*;

verus! {

/// The decimal digit character for a value in `0 ..= 9`.
pub open spec fn digit_char(d: int) -> char {
    if d == 0 {
        '0'
    } else if d == 1 {
        '1'
    } else if d == 2 {
        '2'
    } else if d == 3 {
        '3'
    } else if d == 4 {
        '4'
    } else if d == 5 {
        '5'
    } else if d == 6 {
        '6'
    } else if d == 7 {
        '7'
    } else if d == 8 {
        '8'
    } else {
        '9'
    }
}

/// The decimal rendering of a non-negative integer, without sign or padding.
pub open spec fn dec_seq(n: nat) -> Seq<char>
    decreases n,
{
    if n < 10 {
        seq![digit_char(n as int)]
    } else {
        dec_seq(n / 10) + seq![digit_char((n % 10) as int)]
    }
}

/// The decimal rendering of a signed integer: a leading `-` for negatives.
pub open spec fn int_dec_seq(t: int) -> Seq<char> {
    if t >= 0 {
        dec_seq(t as nat)
    } else {
        seq!['-'] + dec_seq((-t) as nat)
    }
}

/// Relies on `alloc::string::String::push`: appends the given character to
/// the end of the string.
#[verifier::external_body]
pub(crate) fn push_char(s: &mut String, c: char)
    ensures
        final(s)@ == old(s)@.push(c),
{
    s.push(c);
}

/// The digit character for one decimal digit.
fn dec_digit(d: u64) -> (c: char)
    requires
        d < 10,
    ensures
        c == digit_char(d as int),
{
    if d == 0 {
        '0'
    } else if d == 1 {
        '1'
    } else if d == 2 {
        '2'
    } else if d == 3 {
        '3'
    } else if d == 4 {
        '4'
    } else if d == 5 {
        '5'
    } else if d == 6 {
        '6'
    } else if d == 7 {
        '7'
    } else if d == 8 {
        '8'
    } else {
        '9'
    }
}

/// Appends the decimal rendering of `n` to `s`.
pub fn push_dec(s: &mut String, n: u64)
    ensures
        final(s)@ == old(s)@ + dec_seq(n as nat),
    decreases n,
{
    if n >= 10 {
        push_dec(s, n / 10);
    }
    let d = dec_digit(n % 10);
    push_char(s, d);
    proof {
        if n >= 10 {
            assert(dec_seq(n as nat) == dec_seq((n / 10) as nat) + seq![
                digit_char((n % 10) as int),
            ]);
            assert((old(s)@ + dec_seq((n / 10) as nat)).push(digit_char((n % 10) as int)) =~= old(
                s,
            )@ + dec_seq(n as nat));
        } else {
            assert(old(s)@.push(digit_char(n as int)) =~= old(s)@ + dec_seq(n as nat));
        }
    }
}

/// Appends the decimal rendering of the signed integer `t` to `s`.
pub fn push_i64(s: &mut String, t: i64)
    ensures
        final(s)@ == old(s)@ + int_dec_seq(t as int),
{
    if t >= 0 {
        push_dec(s, t as u64);
    } else {
        push_char(s, '-');
        let m: u64 = (-(t as i128)) as u64;
        assert(m as int == -(t as int));
        push_dec(s, m);
        proof {
            assert(old(s)@.push('-') + dec_seq(m as nat) =~= old(s)@ + int_dec_seq(t as int));
        }
    }
}

} // verus!
