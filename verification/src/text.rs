//! Character-level text helpers shared by the file-name sanitizer and the
//! transcoder-output parsers.

use vstd::prelude::*;
use crate::numfmt::push_char;

verus! {

/// ASCII letters and digits.
pub open spec fn spec_is_ascii_alnum(c: char) -> bool {
    ('0' <= c && c <= '9') || ('a' <= c && c <= 'z') || ('A' <= c && c <= 'Z')
}

/// Decides whether `c` is an ASCII letter or digit.
pub fn is_ascii_alnum(c: char) -> (r: bool)
    ensures
        r == spec_is_ascii_alnum(c),
{
    ('0' <= c && c <= '9') || ('a' <= c && c <= 'z') || ('A' <= c && c <= 'Z')
}

/// ASCII decimal digits.
pub open spec fn spec_is_ascii_digit(c: char) -> bool {
    '0' <= c && c <= '9'
}

/// Decides whether `c` is an ASCII decimal digit.
pub fn is_ascii_digit(c: char) -> (r: bool)
    ensures
        r == spec_is_ascii_digit(c),
{
    '0' <= c && c <= '9'
}

/// ASCII punctuation: the four blocks between the alphanumeric ranges.
pub open spec fn spec_is_ascii_punct(c: char) -> bool {
    ('!' <= c && c <= '/') || (':' <= c && c <= '@') || ('[' <= c && c <= '`') || ('{' <= c && c
        <= '~')
}

/// Decides whether `c` is an ASCII punctuation character.
pub fn is_ascii_punct(c: char) -> (r: bool)
    ensures
        r == spec_is_ascii_punct(c),
{
    ('!' <= c && c <= '/') || (':' <= c && c <= '@') || ('[' <= c && c <= '`') || ('{' <= c && c
        <= '~')
}

/// ASCII whitespace.
pub open spec fn spec_is_ascii_space(c: char) -> bool {
    c == ' ' || c == '\t' || c == '\n' || c == '\r'
}

/// Decides whether `c` is ASCII whitespace.
pub fn is_ascii_space(c: char) -> (r: bool)
    ensures
        r == spec_is_ascii_space(c),
{
    c == ' ' || c == '\t' || c == '\n' || c == '\r'
}

/// The characters with the White_Space property, as the standard
/// library counts whitespace.
pub open spec fn spec_is_unicode_space(c: char) -> bool {
    spec_is_ascii_space(c) || c == '\u{b}' || c == '\u{c}' || c == '\u{85}' || c == '\u{a0}'
        || c == '\u{1680}' || ('\u{2000}' <= c && c <= '\u{200a}') || c == '\u{2028}' || c
        == '\u{2029}' || c == '\u{202f}' || c == '\u{205f}' || c == '\u{3000}'
}

/// Decides whether `c` carries the White_Space property.
pub fn is_unicode_space(c: char) -> (r: bool)
    ensures
        r == spec_is_unicode_space(c),
{
    is_ascii_space(c) || c == '\u{b}' || c == '\u{c}' || c == '\u{85}' || c == '\u{a0}' || c
        == '\u{1680}' || ('\u{2000}' <= c && c <= '\u{200a}') || c == '\u{2028}' || c
        == '\u{2029}' || c == '\u{202f}' || c == '\u{205f}' || c == '\u{3000}'
}

/// Collects the characters of a string slice into a vector.
pub fn str_to_chars(s: &str) -> (r: Vec<char>)
    ensures
        r@ == s@,
{
    let n = s.unicode_len();
    let mut r: Vec<char> = Vec::new();
    let mut i: usize = 0;
    while i < n
        invariant
            n == s@.len(),
            i <= n,
            r@ == s@.take(i as int),
        decreases n - i,
    {
        r.push(s.get_char(i));
        i = i + 1;
        proof {
            assert(r@ =~= s@.take(i as int));
        }
    }
    proof {
        assert(s@.take(n as int) =~= s@);
    }
    r
}

/// Builds a string from a vector of characters.
pub fn chars_to_string(v: &Vec<char>) -> (r: String)
    ensures
        r@ == v@,
{
    let mut r = String::new();
    let mut i: usize = 0;
    while i < v.len()
        invariant
            i <= v@.len(),
            r@ == v@.take(i as int),
        decreases v@.len() - i,
    {
        push_char(&mut r, v[i]);
        i = i + 1;
        proof {
            assert(r@ =~= v@.take(i as int));
        }
    }
    proof {
        assert(v@.take(v@.len() as int) =~= v@);
    }
    r
}

} // verus!
