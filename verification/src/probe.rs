//! Parsing the transcoder's probe output: the `HH:MM:SS.mmm` duration
//! stamp and the `WIDTHxHEIGHT` resolution token.

use vstd::prelude::*;
use crate::text::{spec_is_ascii_digit, is_ascii_digit, str_to_chars};

verus! {

/// A text split at a separator character: always at least one part, one
/// more part per separator, separators not included.
pub open spec fn spec_split(s: Seq<char>, c: char) -> Seq<Seq<char>>
    decreases s.len(),
{
    if s.len() == 0 {
        seq![Seq::<char>::empty()]
    } else if s[0] == c {
        seq![Seq::<char>::empty()] + spec_split(s.skip(1), c)
    } else {
        let rest = spec_split(s.skip(1), c);
        seq![seq![s[0]] + rest[0]] + rest.skip(1)
    }
}

/// A split always yields at least one part.
pub proof fn lemma_split_nonempty(s: Seq<char>, c: char)
    ensures
        spec_split(s, c).len() >= 1,
    decreases s.len(),
{
    if s.len() > 0 {
        lemma_split_nonempty(s.skip(1), c);
    }
}

/// The views of a vector of character vectors.
pub open spec fn spec_views_of_chars(v: Seq<Vec<char>>) -> Seq<Seq<char>> {
    v.map_values(|x: Vec<char>| x@)
}

/// The pending first part prepended onto a split's head.
pub open spec fn spec_prepend_head(p: Seq<char>, ss: Seq<Seq<char>>) -> Seq<Seq<char>>
    recommends
        ss.len() >= 1,
{
    seq![p + ss[0]] + ss.skip(1)
}

/// Splits a character vector at a separator.
pub fn split_chars(v: &Vec<char>, c: char) -> (r: Vec<Vec<char>>)
    ensures
        spec_views_of_chars(r@) == spec_split(v@, c),
{
    let mut out: Vec<Vec<char>> = Vec::new();
    let mut cur: Vec<char> = Vec::new();
    let mut i: usize = 0;
    proof {
        lemma_split_nonempty(v@, c);
        assert(v@.skip(0) =~= v@);
        assert(spec_prepend_head(cur@, spec_split(v@, c)) =~= spec_split(v@, c));
    }
    while i < v.len()
        invariant
            i <= v@.len(),
            spec_split(v@, c).len() >= 1,
            spec_split(v@.skip(i as int), c).len() >= 1,
            spec_split(v@, c) == spec_views_of_chars(out@) + spec_prepend_head(
                cur@,
                spec_split(v@.skip(i as int), c),
            ),
        decreases v@.len() - i,
    {
        let ch = v[i];
        let ghost rest = v@.skip(i as int);
        let ghost rest1 = v@.skip(i + 1 as int);
        proof {
            assert(rest[0] == ch);
            assert(rest.skip(1) =~= rest1);
            lemma_split_nonempty(rest1, c);
        }
        if ch == c {
            proof {
                assert(spec_split(rest, c) == seq![Seq::<char>::empty()] + spec_split(rest1, c));
                let ghost sp = spec_split(rest, c);
                assert(sp[0] =~= Seq::<char>::empty());
                assert(spec_prepend_head(cur@, sp) =~= seq![cur@] + spec_split(rest1, c));
            }
            let mut done: Vec<char> = Vec::new();
            proof {
                assert(done@ =~= Seq::<char>::empty());
            }
            core::mem::swap(&mut done, &mut cur);
            out.push(done);
            proof {
                assert(spec_views_of_chars(out@) + spec_prepend_head(
                    cur@,
                    spec_split(rest1, c),
                ) =~= spec_split(v@, c));
            }
        } else {
            proof {
                let ghost r1 = spec_split(rest1, c);
                assert(spec_split(rest, c) == seq![seq![ch] + r1[0]] + r1.skip(1));
                assert(spec_prepend_head(cur@, spec_split(rest, c)) =~= spec_prepend_head(
                    cur@.push(ch),
                    r1,
                )) by {
                    assert(spec_split(rest, c)[0] == seq![ch] + r1[0]);
                    assert(cur@ + (seq![ch] + r1[0]) =~= cur@.push(ch) + r1[0]);
                    assert(spec_split(rest, c).skip(1) =~= r1.skip(1));
                };
            }
            cur.push(ch);
        }
        i = i + 1;
    }
    proof {
        assert(v@.skip(v@.len() as int) =~= Seq::<char>::empty());
        let ghost se = spec_split(Seq::<char>::empty(), c);
        assert(se =~= seq![Seq::<char>::empty()]);
        assert(spec_prepend_head(cur@, se) =~= seq![cur@]);
    }
    out.push(cur);
    proof {
        assert(spec_views_of_chars(out@) =~= spec_split(v@, c));
    }
    out
}

/// The numeric value of one ASCII digit.
pub open spec fn spec_digit_val(c: char) -> int {
    (c as u32) as int - ('0' as u32) as int
}

/// Whether the text is one or more ASCII digits.
pub open spec fn spec_all_digits(s: Seq<char>) -> bool {
    s.len() > 0 && forall|i: int| 0 <= i < s.len() ==> spec_is_ascii_digit(s[i])
}

/// The value of a digit string.
pub open spec fn spec_digits_value(s: Seq<char>) -> int
    decreases s.len(),
{
    if s.len() == 0 {
        0
    } else {
        spec_digits_value(s.take(s.len() - 1)) * 10 + spec_digit_val(s[s.len() - 1])
    }
}

/// A digit string's value never shrinks as digits are appended.
proof fn lemma_digits_value_nonneg(s: Seq<char>)
    requires
        forall|i: int| 0 <= i < s.len() ==> spec_is_ascii_digit(s[i]),
    ensures
        spec_digits_value(s) >= 0,
    decreases s.len(),
{
    if s.len() > 0 {
        assert(forall|i: int|
            0 <= i < s.len() - 1 ==> spec_is_ascii_digit(#[trigger] s.take(s.len() - 1)[i]));
        lemma_digits_value_nonneg(s.take(s.len() - 1));
    }
}

/// A bare digit string's parse: one or more digits whose value fits.
pub open spec fn spec_parse_digits(t: Seq<char>) -> Option<u32> {
    if spec_all_digits(t) && spec_digits_value(t) <= u32::MAX as int {
        Some(spec_digits_value(t) as u32)
    } else {
        None
    }
}

/// How the standard library parses an unsigned number: an optional
/// leading plus sign, then one or more digits, and the value must fit.
pub open spec fn spec_parse_u32(s: Seq<char>) -> Option<u32> {
    if s.len() > 0 && s[0] == '+' {
        spec_parse_digits(s.skip(1))
    } else {
        spec_parse_digits(s)
    }
}

/// The parse with a zero fallback, as the probe parser uses it.
pub open spec fn spec_parse_u32_or_zero(s: Seq<char>) -> u32 {
    match spec_parse_u32(s) {
        Some(v) => v,
        None => 0,
    }
}

/// Parses an unsigned number exactly as the standard library does: an
/// optional leading plus sign, one or more digits, value within range.
pub fn parse_u32_chars(v: &Vec<char>) -> (r: Option<u32>)
    ensures
        r == spec_parse_u32(v@),
{
    let skip_plus: usize = if v.len() > 0 && v[0] == '+' {
        1
    } else {
        0
    };
    let ghost t = if v@.len() > 0 && v@[0] == '+' {
        v@.skip(1)
    } else {
        v@
    };
    proof {
        assert(t =~= v@.subrange(skip_plus as int, v@.len() as int));
    }
    if v.len() == skip_plus {
        return None;
    }
    let mut val: u64 = 0;
    let mut over = false;
    let mut i: usize = skip_plus;
    while i < v.len()
        invariant
            skip_plus <= i <= v@.len(),
            t == (if v@.len() > 0 && v@[0] == '+' {
                v@.skip(1)
            } else {
                v@
            }),
            t == v@.subrange(skip_plus as int, v@.len() as int),
            t.len() == v@.len() - skip_plus,
            forall|k: int| skip_plus <= k < i ==> spec_is_ascii_digit(v@[k]),
            !over ==> val as int == spec_digits_value(t.take(i - skip_plus)) && val <= u32::MAX
                as u64,
            over ==> spec_digits_value(t.take(i - skip_plus)) > u32::MAX as int,
        decreases v@.len() - i,
    {
        let c = v[i];
        if !is_ascii_digit(c) {
            proof {
                assert(0 <= i - skip_plus < t.len());
                assert(t[i - skip_plus as int] == v@[i as int]);
                assert(!spec_is_ascii_digit(t[i - skip_plus as int]));
                assert(!spec_all_digits(t));
                assert(spec_parse_u32(v@) == spec_parse_digits(t));
            }
            return None;
        }
        let d: u64 = (c as u32 as u64) - ('0' as u32 as u64);
        let ghost prefix = t.take(i - skip_plus as int);
        let ghost prefix2 = t.take(i + 1 - skip_plus as int);
        proof {
            assert(prefix2.take(prefix2.len() - 1) =~= prefix);
            assert(prefix2[prefix2.len() - 1] == v@[i as int]);
            assert(spec_digits_value(prefix2) == spec_digits_value(prefix) * 10 + spec_digit_val(
                v@[i as int],
            ));
            assert(forall|k: int| 0 <= k < prefix.len() ==> spec_is_ascii_digit(prefix[k]));
            lemma_digits_value_nonneg(prefix);
        }
        if over {
            proof {
                assert(spec_digits_value(prefix) * 10 >= spec_digits_value(prefix));
                assert(spec_digits_value(prefix2) > u32::MAX as int);
            }
        } else {
            val = val * 10 + d;
            if val > u32::MAX as u64 {
                over = true;
            }
        }
        i = i + 1;
    }
    proof {
        assert(t.take(v@.len() - skip_plus as int) =~= t);
        assert(spec_all_digits(t));
    }
    if over {
        None
    } else {
        Some(val as u32)
    }
}

/// Parses an unsigned number with a zero fallback.
pub fn parse_u32_or_zero_chars(v: &Vec<char>) -> (r: u32)
    ensures
        r == spec_parse_u32_or_zero(v@),
{
    match parse_u32_chars(v) {
        Some(x) => x,
        None => 0,
    }
}

/// The position of the first occurrence of a character, `-1` when absent.
pub open spec fn spec_find_char(s: Seq<char>, c: char) -> int
    decreases s.len(),
{
    if s.len() == 0 {
        -1
    } else if s[0] == c {
        0
    } else {
        let r = spec_find_char(s.skip(1), c);
        if r < 0 {
            -1
        } else {
            r + 1
        }
    }
}

/// A found position is the first: nothing before it matches.
proof fn lemma_find_char_at(s: Seq<char>, c: char, i: int)
    requires
        0 <= i < s.len(),
        s[i] == c,
        forall|k: int| 0 <= k < i ==> s[k] != c,
    ensures
        spec_find_char(s, c) == i,
    decreases i,
{
    if i > 0 {
        assert(s.skip(1)[i - 1] == c);
        lemma_find_char_at(s.skip(1), c, i - 1);
    }
}

/// When nothing matches, the search reports absence.
proof fn lemma_find_char_none(s: Seq<char>, c: char)
    requires
        forall|k: int| 0 <= k < s.len() ==> s[k] != c,
    ensures
        spec_find_char(s, c) == -1,
    decreases s.len(),
{
    if s.len() > 0 {
        lemma_find_char_none(s.skip(1), c);
    }
}

/// Finds the first occurrence of a character.
pub fn find_char(v: &Vec<char>, c: char) -> (r: Option<usize>)
    ensures
        match r {
            Some(i) => i < v@.len() && spec_find_char(v@, c) == i as int,
            None => spec_find_char(v@, c) == -1,
        },
{
    let mut i: usize = 0;
    while i < v.len()
        invariant
            i <= v@.len(),
            forall|k: int| 0 <= k < i ==> v@[k] != c,
        decreases v@.len() - i,
    {
        if v[i] == c {
            proof {
                lemma_find_char_at(v@, c, i as int);
            }
            return Some(i);
        }
        i = i + 1;
    }
    proof {
        lemma_find_char_none(v@, c);
    }
    None
}

/// What the duration stamp parses to: with exactly three colon-separated
/// parts, hours, minutes and the seconds before any decimal point, each
/// parsed with a zero fallback, combined and capped at the type's
/// largest value; anything else parses to zero.
pub open spec fn spec_parse_duration(s: Seq<char>) -> int {
    let parts = spec_split(s, ':');
    if parts.len() == 3 {
        let h = spec_parse_u32_or_zero(parts[0]) as int;
        let m = spec_parse_u32_or_zero(parts[1]) as int;
        let sec_raw = parts[2];
        let f = spec_find_char(sec_raw, '.');
        let sec_str = if f >= 0 {
            sec_raw.take(f)
        } else {
            sec_raw
        };
        let sec = spec_parse_u32_or_zero(sec_str) as int;
        let total = h * 3600 + m * 60 + sec;
        if total > u32::MAX as int {
            u32::MAX as int
        } else {
            total
        }
    } else {
        0
    }
}

/// Parses an `HH:MM:SS[.mmm]` duration stamp into whole seconds; a
/// malformed stamp parses to zero rather than failing, so an unreadable
/// probe degrades to a single-segment plan.
pub fn parse_duration_str(s: &str) -> (r: u32)
    ensures
        r as int == spec_parse_duration(s@),
{
    let cs = str_to_chars(s);
    let parts = split_chars(&cs, ':');
    if parts.len() != 3 {
        return 0;
    }
    proof {
        assert(spec_split(cs@, ':')[0] == parts@[0]@);
        assert(spec_split(cs@, ':')[1] == parts@[1]@);
        assert(spec_split(cs@, ':')[2] == parts@[2]@);
    }
    let h = parse_u32_or_zero_chars(&parts[0]);
    let m = parse_u32_or_zero_chars(&parts[1]);
    let sec_raw = &parts[2];
    let sec: u32 = match find_char(sec_raw, '.') {
        Some(p) => {
            let mut front: Vec<char> = Vec::new();
            let mut j: usize = 0;
            while j < p
                invariant
                    j <= p,
                    p < sec_raw@.len(),
                    front@ == sec_raw@.take(j as int),
                decreases p - j,
            {
                front.push(sec_raw[j]);
                j = j + 1;
                proof {
                    assert(front@ =~= sec_raw@.take(j as int));
                }
            }
            parse_u32_or_zero_chars(&front)
        },
        None => parse_u32_or_zero_chars(sec_raw),
    };
    let total: u64 = h as u64 * 3600 + m as u64 * 60 + sec as u64;
    if total > u32::MAX as u64 {
        u32::MAX
    } else {
        total as u32
    }
}

/// The length of the digit run starting at `p`.
pub open spec fn spec_digit_run(s: Seq<char>, p: int) -> int
    decreases s.len() - p,
{
    if 0 <= p < s.len() && spec_is_ascii_digit(s[p]) {
        1 + spec_digit_run(s, p + 1)
    } else {
        0
    }
}

/// Digit runs stay inside the text.
pub proof fn lemma_digit_run_bounds(s: Seq<char>, p: int)
    requires
        0 <= p <= s.len(),
    ensures
        0 <= spec_digit_run(s, p) <= s.len() - p,
    decreases s.len() - p,
{
    if p < s.len() && spec_is_ascii_digit(s[p]) {
        lemma_digit_run_bounds(s, p + 1);
    }
}

/// The resolution candidate at position `p`: a digit run, an `x`, and a
/// second digit run, both runs parsing as in-range numbers.
pub open spec fn spec_res_candidate(s: Seq<char>, p: int) -> Option<(u32, u32)> {
    let dw = spec_digit_run(s, p);
    if dw >= 1 && p + dw < s.len() && s[p + dw] == 'x' {
        let dh = spec_digit_run(s, p + dw + 1);
        if dh >= 1 {
            let w = spec_digits_value(s.subrange(p, p + dw));
            let h = spec_digits_value(s.subrange(p + dw + 1, p + dw + 1 + dh));
            if w <= u32::MAX as int && h <= u32::MAX as int {
                Some((w as u32, h as u32))
            } else {
                None
            }
        } else {
            None
        }
    } else {
        None
    }
}

/// The first `WIDTHxHEIGHT` token at or after position `p`: the earliest
/// digit-run start whose run is followed by an `x` and a second run.
pub open spec fn spec_find_resolution(s: Seq<char>, p: int) -> Option<(u32, u32)>
    decreases s.len() - p,
{
    if p < 0 || p >= s.len() {
        None
    } else if spec_is_ascii_digit(s[p]) && (p == 0 || !spec_is_ascii_digit(s[p - 1]))
        && spec_res_candidate(s, p) is Some {
        spec_res_candidate(s, p)
    } else {
        spec_find_resolution(s, p + 1)
    }
}

/// What a probe stream line's resolution parses to: its first
/// `WIDTHxHEIGHT` token.
pub open spec fn spec_extract_resolution(s: Seq<char>) -> Option<(u32, u32)> {
    spec_find_resolution(s, 0)
}

/// Measures the digit run starting at `p`.
fn digit_run(v: &Vec<char>, p: usize) -> (r: usize)
    requires
        p <= v@.len(),
    ensures
        r as int == spec_digit_run(v@, p as int),
        p + r <= v@.len(),
{
    let mut q: usize = p;
    while q < v.len() && is_ascii_digit(v[q])
        invariant
            p <= q <= v@.len(),
            spec_digit_run(v@, p as int) == q - p + spec_digit_run(v@, q as int),
        decreases v@.len() - q,
    {
        q = q + 1;
    }
    q - p
}

/// The value of the digit run `v[from..to]`, when it fits.
fn digit_run_value(v: &Vec<char>, from: usize, to: usize) -> (r: Option<u32>)
    requires
        from <= to <= v@.len(),
        forall|k: int| from <= k < to ==> spec_is_ascii_digit(v@[k]),
    ensures
        ({
            let value = spec_digits_value(v@.subrange(from as int, to as int));
            match r {
                Some(x) => x as int == value && value <= u32::MAX as int,
                None => value > u32::MAX as int,
            }
        }),
{
    let ghost t = v@.subrange(from as int, to as int);
    let mut val: u64 = 0;
    let mut over = false;
    let mut i: usize = from;
    while i < to
        invariant
            from <= i <= to <= v@.len(),
            t == v@.subrange(from as int, to as int),
            forall|k: int| from <= k < to ==> spec_is_ascii_digit(v@[k]),
            !over ==> val as int == spec_digits_value(t.take(i - from)) && val <= u32::MAX as u64,
            over ==> spec_digits_value(t.take(i - from)) > u32::MAX as int,
        decreases to - i,
    {
        let c = v[i];
        let d: u64 = (c as u32 as u64) - ('0' as u32 as u64);
        let ghost prefix = t.take(i - from as int);
        let ghost prefix2 = t.take(i + 1 - from as int);
        proof {
            assert(prefix2.take(prefix2.len() - 1) =~= prefix);
            assert(prefix2[prefix2.len() - 1] == v@[i as int]);
            assert(spec_digits_value(prefix2) == spec_digits_value(prefix) * 10 + spec_digit_val(
                v@[i as int],
            ));
            assert(forall|k: int| 0 <= k < prefix.len() ==> spec_is_ascii_digit(prefix[k]));
            lemma_digits_value_nonneg(prefix);
        }
        if over {
            proof {
                assert(spec_digits_value(prefix) * 10 >= spec_digits_value(prefix));
            }
        } else {
            val = val * 10 + d;
            if val > u32::MAX as u64 {
                over = true;
            }
        }
        i = i + 1;
    }
    proof {
        assert(t.take(to - from as int) =~= t);
    }
    if over {
        None
    } else {
        Some(val as u32)
    }
}

/// Pulls the first `WIDTHxHEIGHT` token out of a probe stream line:
/// a digit run, an `x`, and a second digit run, both sides parsed as
/// numbers.
pub fn extract_resolution_str(s: &str) -> (r: Option<(u32, u32)>)
    ensures
        r == spec_extract_resolution(s@),
{
    let cs = str_to_chars(s);
    let n = cs.len();
    let mut p: usize = 0;
    while p < n
        invariant
            cs@ == s@,
            n == cs@.len(),
            p <= n,
            spec_extract_resolution(cs@) == spec_find_resolution(cs@, p as int),
        decreases n - p,
    {
        if is_ascii_digit(cs[p]) && (p == 0 || !is_ascii_digit(cs[p - 1])) {
            let dw = digit_run(&cs, p);
            proof {
                lemma_digit_run_bounds(cs@, p as int);
            }
            if dw >= 1 && p + dw < n && cs[p + dw] == 'x' {
                let hstart = p + dw + 1;
                let dh = digit_run(&cs, hstart);
                proof {
                    lemma_digit_run_bounds(cs@, hstart as int);
                }
                if dh >= 1 {
                    proof {
                        assert forall|k: int| p <= k < p + dw implies spec_is_ascii_digit(
                            cs@[k],
                        ) by {
                            lemma_run_digits(cs@, p as int, k);
                        }
                        assert forall|k: int|
                            hstart <= k < hstart + dh implies spec_is_ascii_digit(cs@[k]) by {
                            lemma_run_digits(cs@, hstart as int, k);
                        }
                    }
                    let w = digit_run_value(&cs, p, p + dw);
                    let h = digit_run_value(&cs, hstart, hstart + dh);
                    match (w, h) {
                        (Some(wv), Some(hv)) => {
                            proof {
                                assert(spec_res_candidate(cs@, p as int) == Some((wv, hv)));
                                assert(spec_find_resolution(cs@, p as int) == spec_res_candidate(
                                    cs@,
                                    p as int,
                                ));
                            }
                            return Some((wv, hv));
                        },
                        _ => {
                            proof {
                                assert(spec_res_candidate(cs@, p as int) is None);
                            }
                        },
                    }
                }
            }
        }
        p = p + 1;
    }
    None
}

/// Every position inside a digit run holds a digit.
proof fn lemma_run_digits(s: Seq<char>, p: int, k: int)
    requires
        0 <= p <= k,
        k < p + spec_digit_run(s, p),
        p <= s.len(),
    ensures
        k < s.len() && spec_is_ascii_digit(s[k]),
    decreases k - p,
{
    lemma_digit_run_bounds(s, p);
    if k > p {
        lemma_run_digits(s, p + 1, k);
    }
}

} // verus!
