//! File-name sanitizing: transliterating names into a safe ASCII form
//! for generated track, video and segment files.

use vstd::prelude::*;
use pinyin::ToPinyin;
use crate::numfmt::{dec_str_pad3, u64_to_string_pad3};
use crate::paths::{spec_file_name, spec_stem_of_name, file_stem_chars};
use crate::text::{
    spec_is_ascii_alnum, spec_is_ascii_punct, spec_is_ascii_space, spec_is_unicode_space,
    is_ascii_alnum, is_ascii_punct, is_ascii_space, is_unicode_space, str_to_chars,
    chars_to_string,
};
use crate::translit::{
    spec_hiragana_to_romaji, spec_cyrillic_to_latin, spec_remove_accents,
};

verus! {

/// String sanitizing helpers.
pub struct StringUtils;

/// The toneless pinyin of one han character, if the lookup table of the
/// pinyin crate knows it.
pub uninterp spec fn pinyin_plain_of(c: char) -> Option<Seq<char>>;

/// Relies on `pinyin::ToPinyin` for `char` and `Pinyin::plain`: the
/// toneless pinyin of one character, a function of the character alone.
#[verifier::external_body]
fn pinyin_plain(c: char) -> (r: Option<String>)
    ensures
        match r {
            Some(s) => pinyin_plain_of(c) == Some(s@),
            None => pinyin_plain_of(c) is None,
        },
{
    match c.to_pinyin() {
        Some(p) => Some(p.plain().to_string()),
        None => None,
    }
}

/// The han (CJK ideograph) character ranges.
pub open spec fn spec_is_chinese_char(c: char) -> bool {
    (0x4E00 <= c as u32 && c as u32 <= 0x9FFF) || (0x3400 <= c as u32 && c as u32 <= 0x4DBF) || (
    0x20000 <= c as u32 && c as u32 <= 0x2A6DF) || (0x2A700 <= c as u32 && c as u32 <= 0x2B73F)
        || (0x2B740 <= c as u32 && c as u32 <= 0x2B81F) || (0x2B820 <= c as u32 && c as u32
        <= 0x2CEAF) || (0x2CEB0 <= c as u32 && c as u32 <= 0x2EBEF)
}

/// The kana character ranges: hiragana and katakana.
pub open spec fn spec_is_japanese_kana(c: char) -> bool {
    (0x3040 <= c as u32 && c as u32 <= 0x309F) || (0x30A0 <= c as u32 && c as u32 <= 0x30FF)
}

/// The cyrillic character range.
pub open spec fn spec_is_russian_cyrillic(c: char) -> bool {
    0x0400 <= c as u32 && c as u32 <= 0x04FF
}

impl StringUtils {
    /// Decides whether `c` is a han (CJK ideograph) character.
    pub fn is_chinese_char(c: char) -> (r: bool)
        ensures
            r == spec_is_chinese_char(c),
    {
        let code = c as u32;
        (0x4E00 <= code && code <= 0x9FFF) || (0x3400 <= code && code <= 0x4DBF) || (0x20000
            <= code && code <= 0x2A6DF) || (0x2A700 <= code && code <= 0x2B73F) || (0x2B740 <= code
            && code <= 0x2B81F) || (0x2B820 <= code && code <= 0x2CEAF) || (0x2CEB0 <= code && code
            <= 0x2EBEF)
    }

    /// Decides whether `c` is a kana character.
    pub fn is_japanese_kana(c: char) -> (r: bool)
        ensures
            r == spec_is_japanese_kana(c),
    {
        let code = c as u32;
        (0x3040 <= code && code <= 0x309F) || (0x30A0 <= code && code <= 0x30FF)
    }

    /// Decides whether `c` is a cyrillic character.
    pub fn is_russian_cyrillic(c: char) -> (r: bool)
        ensures
            r == spec_is_russian_cyrillic(c),
    {
        let code = c as u32;
        0x0400 <= code && code <= 0x04FF
    }
}

/// The punctuation characters that the transliteration keeps as they are.
pub open spec fn spec_is_kept_punct(c: char) -> bool {
    c == ' ' || c == '-' || c == '_' || c == '.' || c == ',' || c == '!' || c == '?' || c == ':'
        || c == ';' || c == '(' || c == ')'
}

/// What one character of a name becomes under transliteration:
/// ASCII letters, digits and a few punctuation characters stay; other
/// ASCII punctuation becomes `'_'`; han characters become their pinyin,
/// kana their romaji, cyrillic letters their latin transliteration;
/// accented latin letters lose the accent; any whitespace becomes a
/// space; anything else becomes `'_'`.
pub open spec fn spec_translit_char(c: char) -> Seq<char> {
    if spec_is_ascii_alnum(c) {
        seq![c]
    } else if spec_is_kept_punct(c) && spec_is_ascii_punct(c) {
        seq![c]
    } else if spec_is_ascii_punct(c) {
        seq!['_']
    } else if spec_is_chinese_char(c) {
        match pinyin_plain_of(c) {
            Some(p) => p,
            None => seq!['_'],
        }
    } else if spec_is_japanese_kana(c) {
        match spec_hiragana_to_romaji(c) {
            Some(r) => r,
            None => seq!['_'],
        }
    } else if spec_is_russian_cyrillic(c) {
        match spec_cyrillic_to_latin(c) {
            Some(r) => r,
            None => seq!['_'],
        }
    } else if spec_remove_accents(c) != c {
        seq![spec_remove_accents(c)]
    } else if spec_is_unicode_space(c) {
        seq![' ']
    } else {
        seq!['_']
    }
}

/// The whole transliteration: each character replaced by its
/// transliterated chunk, in order.
pub open spec fn spec_translit(s: Seq<char>) -> Seq<char>
    decreases s.len(),
{
    if s.len() == 0 {
        Seq::<char>::empty()
    } else {
        spec_translit_char(s[0]) + spec_translit(s.skip(1))
    }
}

/// Appending one character transliterates to appending its chunk.
proof fn lemma_translit_push(s: Seq<char>, c: char)
    ensures
        spec_translit(s.push(c)) == spec_translit(s) + spec_translit_char(c),
    decreases s.len(),
{
    if s.len() == 0 {
        assert(s.push(c).skip(1) =~= Seq::<char>::empty());
        assert(s.push(c)[0] == c);
        assert(spec_translit(s.push(c)) == spec_translit_char(c) + spec_translit(
            Seq::<char>::empty(),
        ));
        assert(spec_translit(s.push(c)) =~= spec_translit(s) + spec_translit_char(c));
    } else {
        assert(s.push(c).skip(1) =~= s.skip(1).push(c));
        assert(s.push(c)[0] == s[0]);
        assert(spec_translit(s.push(c)) == spec_translit_char(s[0]) + spec_translit(
            s.skip(1).push(c),
        ));
        lemma_translit_push(s.skip(1), c);
        assert(spec_translit(s.push(c)) =~= spec_translit(s) + spec_translit_char(c));
    }
}

/// What one transliterated character becomes in a safe file name:
/// letters, digits, `'_'`, `'-'`, `' '` and `'.'` stay; everything else
/// becomes `'_'`.
pub open spec fn spec_sanitize_char(c: char) -> char {
    if spec_is_ascii_alnum(c) || c == '_' || c == '-' || c == ' ' || c == '.' {
        c
    } else {
        '_'
    }
}

/// The character-wise sanitizing of a whole name.
pub open spec fn spec_sanitize(s: Seq<char>) -> Seq<char> {
    Seq::new(s.len(), |i: int| spec_sanitize_char(s[i]))
}

/// Separator characters that are collapsed and trimmed.
pub open spec fn spec_is_sep(c: char) -> bool {
    c == '_' || c == ' '
}

/// Two adjacent separators merge into one: an underscore wins over a
/// space.
pub open spec fn spec_sep_merge(a: char, b: char) -> char {
    if a == '_' || b == '_' {
        '_'
    } else {
        ' '
    }
}

/// Collapses every run of separator characters to a single one, an
/// underscore if the run held any underscore.
pub open spec fn spec_collapse(s: Seq<char>) -> Seq<char>
    decreases s.len(),
{
    if s.len() == 0 {
        Seq::<char>::empty()
    } else if s.len() >= 2 && spec_is_sep(s[0]) && spec_is_sep(s[1]) {
        spec_collapse(seq![spec_sep_merge(s[0], s[1])] + s.skip(2))
    } else {
        seq![s[0]] + spec_collapse(s.skip(1))
    }
}

/// Drops leading separator characters.
pub open spec fn spec_drop_leading_seps(s: Seq<char>) -> Seq<char>
    decreases s.len(),
{
    if s.len() > 0 && spec_is_sep(s[0]) {
        spec_drop_leading_seps(s.skip(1))
    } else {
        s
    }
}

/// Drops trailing separator characters.
pub open spec fn spec_drop_trailing_seps(s: Seq<char>) -> Seq<char>
    decreases s.len(),
{
    if s.len() > 0 && spec_is_sep(s[s.len() - 1]) {
        spec_drop_trailing_seps(s.take(s.len() - 1))
    } else {
        s
    }
}

/// Drops separator characters from both ends.
pub open spec fn spec_trim_seps(s: Seq<char>) -> Seq<char> {
    spec_drop_trailing_seps(spec_drop_leading_seps(s))
}

/// The cleaned form of a name: transliterated, sanitized character by
/// character, separator runs collapsed, separators trimmed from the ends.
pub open spec fn spec_clean_name(s: Seq<char>) -> Seq<char> {
    spec_trim_seps(spec_collapse(spec_sanitize(spec_translit(s))))
}

/// The safe ASCII name: the cleaned form, `"track"` if nothing is left,
/// shortened to 47 characters and an ellipsis if longer than 50.
pub open spec fn spec_safe_pinyin(s: Seq<char>) -> Seq<char> {
    let t = spec_clean_name(s);
    if t.len() == 0 {
        "track"@
    } else if t.len() > 50 {
        t.take(47) + "..."@
    } else {
        t
    }
}

/// The pending separator of the collapsing loop, as a sequence.
pub open spec fn spec_pending_seq(p: Option<char>) -> Seq<char> {
    match p {
        Some(c) => seq![c],
        None => Seq::<char>::empty(),
    }
}

fn translit_vec(v: &Vec<char>) -> (r: Vec<char>)
    ensures
        r@ == spec_translit(v@),
{
    let mut out: Vec<char> = Vec::new();
    let mut i: usize = 0;
    while i < v.len()
        invariant
            i <= v@.len(),
            out@ == spec_translit(v@.take(i as int)),
        decreases v@.len() - i,
    {
        let c = v[i];
        if is_ascii_alnum(c) {
            out.push(c);
        } else if is_ascii_punct(c) {
            if c == ' ' || c == '-' || c == '_' || c == '.' || c == ',' || c == '!' || c == '?'
                || c == ':' || c == ';' || c == '(' || c == ')' {
                out.push(c);
            } else {
                out.push('_');
            }
        } else if StringUtils::is_chinese_char(c) {
            match pinyin_plain(c) {
                Some(p) => {
                    let mut pc = str_to_chars(p.as_str());
                    out.append(&mut pc);
                },
                None => out.push('_'),
            }
        } else if StringUtils::is_japanese_kana(c) {
            match StringUtils::hiragana_to_romaji(c) {
                Some(r) => {
                    let mut rc = str_to_chars(r);
                    out.append(&mut rc);
                },
                None => out.push('_'),
            }
        } else if StringUtils::is_russian_cyrillic(c) {
            match StringUtils::cyrillic_to_latin(c) {
                Some(r) => {
                    let mut rc = str_to_chars(r);
                    out.append(&mut rc);
                },
                None => out.push('_'),
            }
        } else {
            let base = StringUtils::remove_spanish_accents(c);
            if base != c {
                out.push(base);
            } else if is_unicode_space(c) {
                out.push(' ');
            } else {
                out.push('_');
            }
        }
        proof {
            lemma_translit_push(v@.take(i as int), c);
            assert(v@.take(i + 1 as int) =~= v@.take(i as int).push(c));
        }
        i = i + 1;
    }
    proof {
        assert(v@.take(v@.len() as int) =~= v@);
    }
    out
}

fn sanitize_vec(v: &Vec<char>) -> (r: Vec<char>)
    ensures
        r@ == spec_sanitize(v@),
{
    let mut out: Vec<char> = Vec::new();
    let mut i: usize = 0;
    while i < v.len()
        invariant
            i <= v@.len(),
            out@ == spec_sanitize(v@).take(i as int),
        decreases v@.len() - i,
    {
        let c = v[i];
        if is_ascii_alnum(c) || c == '_' || c == '-' || c == ' ' || c == '.' {
            out.push(c);
        } else {
            out.push('_');
        }
        i = i + 1;
        proof {
            assert(out@ =~= spec_sanitize(v@).take(i as int));
        }
    }
    proof {
        assert(spec_sanitize(v@).take(v@.len() as int) =~= spec_sanitize(v@));
    }
    out
}

fn collapse_vec(v: &Vec<char>) -> (r: Vec<char>)
    ensures
        r@ == spec_collapse(v@),
{
    let mut out: Vec<char> = Vec::new();
    let mut pending: Option<char> = None;
    let mut i: usize = 0;
    proof {
        assert(spec_pending_seq(None) + v@.skip(0) =~= v@);
    }
    while i < v.len()
        invariant
            i <= v@.len(),
            spec_collapse(v@) == out@ + spec_collapse(
                spec_pending_seq(pending) + v@.skip(i as int),
            ),
            pending is Some ==> spec_is_sep(pending->0),
        decreases v@.len() - i,
    {
        let c = v[i];
        let ghost before = spec_pending_seq(pending) + v@.skip(i as int);
        if c == '_' || c == ' ' {
            match pending {
                Some(p) => {
                    let merged: char = if p == '_' || c == '_' {
                        '_'
                    } else {
                        ' '
                    };
                    proof {
                        assert(before.len() >= 2);
                        assert(before[0] == p);
                        assert(before[1] == c);
                        assert(seq![spec_sep_merge(p, c)] + before.skip(2) =~= spec_pending_seq(
                            Some(merged),
                        ) + v@.skip(i + 1 as int));
                    }
                    pending = Some(merged);
                },
                None => {
                    proof {
                        assert(before =~= spec_pending_seq(Some(c)) + v@.skip(i + 1 as int));
                    }
                    pending = Some(c);
                },
            }
        } else {
            match pending {
                Some(p) => {
                    proof {
                        assert(before[0] == p);
                        assert(before.skip(1) =~= v@.skip(i as int));
                        assert(v@.skip(i as int)[0] == c);
                        assert(v@.skip(i as int).skip(1) =~= v@.skip(i + 1 as int));
                        assert(spec_collapse(before) == seq![p] + spec_collapse(
                            v@.skip(i as int),
                        ));
                        assert(spec_collapse(v@.skip(i as int)) == seq![c] + spec_collapse(
                            v@.skip(i + 1 as int),
                        ));
                    }
                    out.push(p);
                    out.push(c);
                    pending = None;
                },
                None => {
                    proof {
                        assert(before =~= v@.skip(i as int));
                        assert(before[0] == c);
                        assert(before.skip(1) =~= v@.skip(i + 1 as int));
                        assert(spec_collapse(before) == seq![c] + spec_collapse(
                            v@.skip(i + 1 as int),
                        ));
                    }
                    out.push(c);
                },
            }
        }
        i = i + 1;
        proof {
            assert(spec_collapse(v@) == out@ + spec_collapse(
                spec_pending_seq(pending) + v@.skip(i as int),
            ));
        }
    }
    proof {
        assert(v@.skip(v@.len() as int) =~= Seq::<char>::empty());
    }
    match pending {
        Some(p) => {
            proof {
                let ghost tail = spec_pending_seq(Some(p)) + v@.skip(v@.len() as int);
                assert(tail =~= seq![p]);
                assert(tail.skip(1) =~= Seq::<char>::empty());
                assert(spec_collapse(Seq::<char>::empty()) =~= Seq::<char>::empty());
                assert(spec_collapse(tail) =~= seq![p]);
            }
            out.push(p);
        },
        None => {
            proof {
                let ghost tail = spec_pending_seq(None) + v@.skip(v@.len() as int);
                assert(tail =~= Seq::<char>::empty());
            }
        },
    }
    proof {
        assert(out@ =~= spec_collapse(v@));
    }
    out
}

fn trim_seps_vec(v: &Vec<char>) -> (r: Vec<char>)
    ensures
        r@ == spec_trim_seps(v@),
{
    let mut start: usize = 0;
    proof {
        assert(v@.skip(0) =~= v@);
    }
    while start < v.len() && (v[start] == '_' || v[start] == ' ')
        invariant
            start <= v@.len(),
            spec_drop_leading_seps(v@) == spec_drop_leading_seps(v@.skip(start as int)),
        decreases v@.len() - start,
    {
        proof {
            assert(v@.skip(start as int)[0] == v@[start as int]);
            assert(v@.skip(start as int).skip(1) =~= v@.skip(start + 1 as int));
        }
        start = start + 1;
    }
    proof {
        assert(spec_drop_leading_seps(v@.skip(start as int)) == v@.skip(start as int));
    }
    let mut end: usize = v.len();
    proof {
        assert(v@.skip(start as int) =~= v@.subrange(start as int, v@.len() as int));
    }
    while end > start && (v[end - 1] == '_' || v[end - 1] == ' ')
        invariant
            start <= end <= v@.len(),
            spec_drop_leading_seps(v@) == v@.skip(start as int),
            spec_drop_trailing_seps(v@.skip(start as int)) == spec_drop_trailing_seps(
                v@.subrange(start as int, end as int),
            ),
        decreases end,
    {
        proof {
            let ghost cur = v@.subrange(start as int, end as int);
            assert(cur[cur.len() - 1] == v@[end - 1]);
            assert(cur.take(cur.len() - 1) =~= v@.subrange(start as int, end - 1 as int));
        }
        end = end - 1;
    }
    proof {
        let ghost cur = v@.subrange(start as int, end as int);
        assert(spec_drop_trailing_seps(cur) == cur);
        assert(v@.skip(start as int) =~= v@.subrange(start as int, v@.len() as int));
    }
    let mut out: Vec<char> = Vec::new();
    let mut j: usize = start;
    while j < end
        invariant
            start <= j <= end <= v@.len(),
            out@ == v@.subrange(start as int, j as int),
        decreases end - j,
    {
        out.push(v[j]);
        j = j + 1;
        proof {
            assert(out@ =~= v@.subrange(start as int, j as int));
        }
    }
    proof {
        assert(out@ =~= spec_trim_seps(v@));
    }
    out
}

impl StringUtils {
    /// Transliterates a name into ASCII characters: han characters become
    /// pinyin, kana romaji, cyrillic latin, accents are stripped.
    pub fn chinese_to_pinyin(input: &str) -> (r: String)
        ensures
            r@ == spec_translit(input@),
    {
        let cs = str_to_chars(input);
        let t = translit_vec(&cs);
        chars_to_string(&t)
    }

    /// Turns a name into a safe ASCII file stem: transliterated,
    /// unsafe characters replaced by underscores, separator runs
    /// collapsed, separators trimmed, `"track"` when nothing is left,
    /// shortened with an ellipsis beyond 50 characters.
    pub fn to_ascii_safe_pinyin(input: &str) -> (r: String)
        ensures
            r@ == spec_safe_pinyin(input@),
    {
        let cs = str_to_chars(input);
        let t = translit_vec(&cs);
        let s = sanitize_vec(&t);
        let c = collapse_vec(&s);
        let cleaned = trim_seps_vec(&c);
        if cleaned.len() == 0 {
            let r = String::new();
            let r = r.concat("track");
            proof {
                assert(r@ =~= "track"@);
            }
            r
        } else if cleaned.len() > 50 {
            let mut short: Vec<char> = Vec::new();
            let mut j: usize = 0;
            while j < 47
                invariant
                    j <= 47,
                    cleaned@.len() > 50,
                    cleaned@ == spec_clean_name(input@),
                    short@ == cleaned@.take(j as int),
                decreases 47 - j,
            {
                short.push(cleaned[j]);
                j = j + 1;
                proof {
                    assert(short@ =~= cleaned@.take(j as int));
                }
            }
            let mut r = chars_to_string(&short);
            r.append("...");
            r
        } else {
            chars_to_string(&cleaned)
        }
    }
}

/// Collapses every run of underscores to a single underscore.
pub open spec fn spec_collapse_underscores(s: Seq<char>) -> Seq<char>
    decreases s.len(),
{
    if s.len() == 0 {
        Seq::<char>::empty()
    } else if s.len() >= 2 && s[0] == '_' && s[1] == '_' {
        spec_collapse_underscores(s.skip(1))
    } else {
        seq![s[0]] + spec_collapse_underscores(s.skip(1))
    }
}

/// Drops leading underscores.
pub open spec fn spec_drop_leading_us(s: Seq<char>) -> Seq<char>
    decreases s.len(),
{
    if s.len() > 0 && s[0] == '_' {
        spec_drop_leading_us(s.skip(1))
    } else {
        s
    }
}

/// Drops trailing underscores.
pub open spec fn spec_drop_trailing_us(s: Seq<char>) -> Seq<char>
    decreases s.len(),
{
    if s.len() > 0 && s[s.len() - 1] == '_' {
        spec_drop_trailing_us(s.take(s.len() - 1))
    } else {
        s
    }
}

/// Drops leading ASCII whitespace.
pub open spec fn spec_drop_leading_ws(s: Seq<char>) -> Seq<char>
    decreases s.len(),
{
    if s.len() > 0 && spec_is_ascii_space(s[0]) {
        spec_drop_leading_ws(s.skip(1))
    } else {
        s
    }
}

/// Drops trailing ASCII whitespace.
pub open spec fn spec_drop_trailing_ws(s: Seq<char>) -> Seq<char>
    decreases s.len(),
{
    if s.len() > 0 && spec_is_ascii_space(s[s.len() - 1]) {
        spec_drop_trailing_ws(s.take(s.len() - 1))
    } else {
        s
    }
}

/// Whether every character of the sequence is an underscore.
pub open spec fn spec_all_underscores(s: Seq<char>) -> bool {
    forall|i: int| 0 <= i < s.len() ==> s[i] == '_'
}

/// The polished form of a file stem: underscores trimmed from the ends,
/// underscore runs collapsed, whitespace trimmed; empty when nothing
/// meaningful is left.
pub open spec fn spec_optimize_filename(s: Seq<char>) -> Seq<char> {
    let a = spec_drop_trailing_us(spec_drop_leading_us(s));
    let b = spec_collapse_underscores(a);
    let c = spec_drop_trailing_ws(spec_drop_leading_ws(b));
    if c.len() == 0 || spec_all_underscores(c) {
        Seq::<char>::empty()
    } else {
        c
    }
}

/// The safe file name with an index fallback: the polished safe stem, or
/// `"track"` and the three-digit index when nothing meaningful is left.
pub open spec fn spec_safe_filename(s: Seq<char>, index: nat) -> Seq<char> {
    let opt = spec_optimize_filename(spec_safe_pinyin(s));
    if opt.len() == 0 || spec_all_underscores(opt) {
        "track"@ + dec_str_pad3(index)
    } else {
        opt
    }
}

fn collapse_us_vec(v: &Vec<char>) -> (r: Vec<char>)
    ensures
        r@ == spec_collapse_underscores(v@),
{
    let mut out: Vec<char> = Vec::new();
    let mut i: usize = 0;
    proof {
        assert(v@.skip(0) =~= v@);
    }
    while i < v.len()
        invariant
            i <= v@.len(),
            spec_collapse_underscores(v@) == out@ + spec_collapse_underscores(v@.skip(i as int)),
        decreases v@.len() - i,
    {
        let c = v[i];
        proof {
            assert(v@.skip(i as int)[0] == c);
            assert(v@.skip(i as int).skip(1) =~= v@.skip(i + 1 as int));
        }
        if c == '_' && i + 1 < v.len() && v[i + 1] == '_' {
            proof {
                assert(v@.skip(i as int)[1] == v@[i + 1]);
            }
        } else {
            out.push(c);
        }
        i = i + 1;
    }
    proof {
        assert(v@.skip(v@.len() as int) =~= Seq::<char>::empty());
        assert(out@ =~= spec_collapse_underscores(v@));
    }
    out
}

fn trim_us_vec(v: &Vec<char>) -> (r: Vec<char>)
    ensures
        r@ == spec_drop_trailing_us(spec_drop_leading_us(v@)),
{
    let mut start: usize = 0;
    proof {
        assert(v@.skip(0) =~= v@);
    }
    while start < v.len() && v[start] == '_'
        invariant
            start <= v@.len(),
            spec_drop_leading_us(v@) == spec_drop_leading_us(v@.skip(start as int)),
        decreases v@.len() - start,
    {
        proof {
            assert(v@.skip(start as int)[0] == v@[start as int]);
            assert(v@.skip(start as int).skip(1) =~= v@.skip(start + 1 as int));
        }
        start = start + 1;
    }
    proof {
        assert(spec_drop_leading_us(v@.skip(start as int)) == v@.skip(start as int));
    }
    let mut end: usize = v.len();
    proof {
        assert(v@.skip(start as int) =~= v@.subrange(start as int, v@.len() as int));
    }
    while end > start && v[end - 1] == '_'
        invariant
            start <= end <= v@.len(),
            spec_drop_leading_us(v@) == v@.skip(start as int),
            spec_drop_trailing_us(v@.skip(start as int)) == spec_drop_trailing_us(
                v@.subrange(start as int, end as int),
            ),
        decreases end,
    {
        proof {
            let ghost cur = v@.subrange(start as int, end as int);
            assert(cur[cur.len() - 1] == v@[end - 1]);
            assert(cur.take(cur.len() - 1) =~= v@.subrange(start as int, end - 1 as int));
        }
        end = end - 1;
    }
    proof {
        let ghost cur = v@.subrange(start as int, end as int);
        assert(spec_drop_trailing_us(cur) == cur);
        assert(v@.skip(start as int) =~= v@.subrange(start as int, v@.len() as int));
    }
    let mut out: Vec<char> = Vec::new();
    let mut j: usize = start;
    while j < end
        invariant
            start <= j <= end <= v@.len(),
            out@ == v@.subrange(start as int, j as int),
        decreases end - j,
    {
        out.push(v[j]);
        j = j + 1;
        proof {
            assert(out@ =~= v@.subrange(start as int, j as int));
        }
    }
    proof {
        assert(out@ =~= spec_drop_trailing_us(spec_drop_leading_us(v@)));
    }
    out
}

fn trim_ws_vec(v: &Vec<char>) -> (r: Vec<char>)
    ensures
        r@ == spec_drop_trailing_ws(spec_drop_leading_ws(v@)),
{
    let mut start: usize = 0;
    proof {
        assert(v@.skip(0) =~= v@);
    }
    while start < v.len() && is_ascii_space(v[start])
        invariant
            start <= v@.len(),
            spec_drop_leading_ws(v@) == spec_drop_leading_ws(v@.skip(start as int)),
        decreases v@.len() - start,
    {
        proof {
            assert(v@.skip(start as int)[0] == v@[start as int]);
            assert(v@.skip(start as int).skip(1) =~= v@.skip(start + 1 as int));
        }
        start = start + 1;
    }
    proof {
        assert(spec_drop_leading_ws(v@.skip(start as int)) == v@.skip(start as int));
    }
    let mut end: usize = v.len();
    proof {
        assert(v@.skip(start as int) =~= v@.subrange(start as int, v@.len() as int));
    }
    while end > start && is_ascii_space(v[end - 1])
        invariant
            start <= end <= v@.len(),
            spec_drop_leading_ws(v@) == v@.skip(start as int),
            spec_drop_trailing_ws(v@.skip(start as int)) == spec_drop_trailing_ws(
                v@.subrange(start as int, end as int),
            ),
        decreases end,
    {
        proof {
            let ghost cur = v@.subrange(start as int, end as int);
            assert(cur[cur.len() - 1] == v@[end - 1]);
            assert(cur.take(cur.len() - 1) =~= v@.subrange(start as int, end - 1 as int));
        }
        end = end - 1;
    }
    proof {
        let ghost cur = v@.subrange(start as int, end as int);
        assert(spec_drop_trailing_ws(cur) == cur);
        assert(v@.skip(start as int) =~= v@.subrange(start as int, v@.len() as int));
    }
    let mut out: Vec<char> = Vec::new();
    let mut j: usize = start;
    while j < end
        invariant
            start <= j <= end <= v@.len(),
            out@ == v@.subrange(start as int, j as int),
        decreases end - j,
    {
        out.push(v[j]);
        j = j + 1;
        proof {
            assert(out@ =~= v@.subrange(start as int, j as int));
        }
    }
    proof {
        assert(out@ =~= spec_drop_trailing_ws(spec_drop_leading_ws(v@)));
    }
    out
}

fn all_underscores_vec(v: &Vec<char>) -> (r: bool)
    ensures
        r == spec_all_underscores(v@),
{
    let mut i: usize = 0;
    while i < v.len()
        invariant
            i <= v@.len(),
            forall|k: int| 0 <= k < i ==> v@[k] == '_',
        decreases v@.len() - i,
    {
        if v[i] != '_' {
            return false;
        }
        i = i + 1;
    }
    true
}

impl StringUtils {
    /// Polishes a file stem: trims underscores from the ends, collapses
    /// underscore runs, trims whitespace; returns the empty string when
    /// nothing meaningful is left.
    pub fn optimize_filename(input: &str) -> (r: String)
        ensures
            r@ == spec_optimize_filename(input@),
    {
        let cs = str_to_chars(input);
        let a = trim_us_vec(&cs);
        let b = collapse_us_vec(&a);
        let c = trim_ws_vec(&b);
        if c.len() == 0 || all_underscores_vec(&c) {
            let r = String::new();
            proof {
                assert(r@ =~= spec_optimize_filename(input@));
            }
            r
        } else {
            chars_to_string(&c)
        }
    }

    /// The safe file name for one input, with the batch index as a
    /// fallback when the name carries nothing meaningful.
    pub fn safe_filename_pinyin(input: &str, index: usize) -> (r: String)
        ensures
            r@ == spec_safe_filename(input@, index as nat),
    {
        let safe = Self::to_ascii_safe_pinyin(input);
        let opt = Self::optimize_filename(safe.as_str());
        let cs = str_to_chars(opt.as_str());
        if cs.len() == 0 || all_underscores_vec(&cs) {
            let mut r = String::new();
            r.append("track");
            let idx = u64_to_string_pad3(index as u64);
            r.append(idx.as_str());
            proof {
                assert(r@ =~= "track"@ + dec_str_pad3(index as nat));
            }
            r
        } else {
            opt
        }
    }

    /// The track name generated from a path: the safe file name of the
    /// path's stem, or `"track_"` and the three-digit index when the path
    /// has no file name.
    pub fn generate_track_name_from_path(path: &str, index: usize) -> (r: String)
        ensures
            spec_file_name(path@).len() == 0 ==> r@ == "track_"@ + dec_str_pad3(index as nat),
            spec_file_name(path@).len() > 0 ==> r@ == spec_safe_filename(
                spec_stem_of_name(spec_file_name(path@)),
                index as nat,
            ),
    {
        let name = crate::paths::file_name_chars(path);
        if name.len() == 0 {
            let mut r = String::new();
            r.append("track_");
            let idx = u64_to_string_pad3(index as u64);
            r.append(idx.as_str());
            proof {
                assert(r@ =~= "track_"@ + dec_str_pad3(index as nat));
            }
            r
        } else {
            let stem = file_stem_chars(path);
            let stem_s = chars_to_string(&stem);
            Self::safe_filename_pinyin(stem_s.as_str(), index)
        }
    }

    /// Caps a path at a maximum length by shortening its file stem; the
    /// directory and the extension are kept as they are.
    pub fn ensure_path_length(path: &str, max_length: usize) -> (r: String)
        ensures
            r@ == crate::paths::spec_ensure_path_length(path@, max_length as int),
    {
        crate::paths::ensure_path_length_str(path, max_length)
    }

    /// The class name for a track: the base class, an underscore, and
    /// the safe form of the track's name.
    pub fn generate_class_name(track_name: &str, base_class: &str, _index: usize) -> (r: String)
        ensures
            r@ == base_class@ + seq!['_'] + spec_safe_pinyin(track_name@),
    {
        let safe = Self::to_ascii_safe_pinyin(track_name);
        let mut r = String::new();
        r.append(base_class);
        r.append("_");
        r.append(safe.as_str());
        proof {
            reveal_strlit("_");
            assert("_"@ =~= seq!['_']);
        }
        r
    }
}

} // verus!
