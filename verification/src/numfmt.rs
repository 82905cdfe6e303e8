//! Decimal rendering of integers, used for transcoder arguments and
//! generated file names.

use vstd::prelude::*;

verus! {

/// The character for one decimal digit.
pub open spec fn dec_digit(d: int) -> char
    recommends
        0 <= d < 10,
{
    if d == 0 {
        '0'
    } else if d == 1 {
        '1'
    } else if d == 2 {
        '2'
    } else if d == 3 {
        '3'
    } else if d == 4 {
        '4'
    } else if d == 5 {
        '5'
    } else if d == 6 {
        '6'
    } else if d == 7 {
        '7'
    } else if d == 8 {
        '8'
    } else {
        '9'
    }
}

/// The decimal rendering of `n`, without leading zeros (a single `'0'`
/// for zero itself).
pub open spec fn dec_str(n: nat) -> Seq<char>
    decreases n,
{
    if n < 10 {
        seq![dec_digit(n as int)]
    } else {
        dec_str(n / 10) + seq![dec_digit((n % 10) as int)]
    }
}

/// The decimal rendering of `n`, zero-padded on the left to at least
/// three characters.
pub open spec fn dec_str_pad3(n: nat) -> Seq<char> {
    if n < 10 {
        seq!['0', '0'] + dec_str(n)
    } else if n < 100 {
        seq!['0'] + dec_str(n)
    } else {
        dec_str(n)
    }
}

/// Relies on `String::push`: appends exactly one character.
#[verifier::external_body]
pub(crate) fn push_char(s: &mut String, c: char)
    ensures
        final(s)@ == old(s)@.push(c),
{
    s.push(c);
}

/// The character for a digit below ten.
fn digit_char(d: u64) -> (c: char)
    requires
        d < 10,
    ensures
        c == dec_digit(d as int),
{
    if d == 0 {
        '0'
    } else if d == 1 {
        '1'
    } else if d == 2 {
        '2'
    } else if d == 3 {
        '3'
    } else if d == 4 {
        '4'
    } else if d == 5 {
        '5'
    } else if d == 6 {
        '6'
    } else if d == 7 {
        '7'
    } else if d == 8 {
        '8'
    } else {
        '9'
    }
}

/// Renders `n` in decimal.
pub fn u64_to_string(n: u64) -> (r: String)
    ensures
        r@ == dec_str(n as nat),
    decreases n,
{
    if n < 10 {
        let mut s = String::new();
        push_char(&mut s, digit_char(n));
        proof {
            assert(s@ =~= dec_str(n as nat));
        }
        s
    } else {
        let mut s = u64_to_string(n / 10);
        push_char(&mut s, digit_char(n % 10));
        proof {
            assert(s@ =~= dec_str(n as nat));
        }
        s
    }
}

/// Renders `n` in decimal, zero-padded to at least three characters.
pub fn u64_to_string_pad3(n: u64) -> (r: String)
    ensures
        r@ == dec_str_pad3(n as nat),
{
    let mut s = String::new();
    if n < 100 {
        push_char(&mut s, '0');
    }
    if n < 10 {
        push_char(&mut s, '0');
    }
    let digits = u64_to_string(n);
    s.append(digits.as_str());
    proof {
        assert(s@ =~= dec_str_pad3(n as nat));
    }
    s
}

} // verus!
