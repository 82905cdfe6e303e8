//! Path-string helpers: file name, stem and extension of a path held as
//! plain text, and joining a directory with a file name.

use vstd::prelude::*;
use crate::numfmt::push_char;
use crate::text::str_to_chars;

verus! {

/// Path separators recognized in a path string.
pub open spec fn spec_is_path_sep(c: char) -> bool {
    c == '/' || c == '\\'
}

/// Where the file name of a path starts: directly after the last
/// separator, or at the start when there is none.
pub open spec fn spec_name_start(s: Seq<char>) -> int
    decreases s.len(),
{
    if s.len() == 0 {
        0
    } else if spec_is_path_sep(s[s.len() - 1]) {
        s.len() as int
    } else {
        spec_name_start(s.take(s.len() - 1))
    }
}

/// The file-name part of a path: everything after the last separator.
pub open spec fn spec_file_name(s: Seq<char>) -> Seq<char> {
    s.skip(spec_name_start(s))
}

/// The position of the last dot of a name, `-1` when there is none.
pub open spec fn spec_last_dot(s: Seq<char>) -> int
    decreases s.len(),
{
    if s.len() == 0 {
        -1
    } else if s[s.len() - 1] == '.' {
        s.len() - 1
    } else {
        spec_last_dot(s.take(s.len() - 1))
    }
}

/// The stem of a file name: up to the last dot, unless the only dot
/// leads the name.
pub open spec fn spec_stem_of_name(name: Seq<char>) -> Seq<char> {
    if spec_last_dot(name) > 0 {
        name.take(spec_last_dot(name))
    } else {
        name
    }
}

/// The stem of a path's file name.
pub open spec fn spec_file_stem(s: Seq<char>) -> Seq<char> {
    spec_stem_of_name(spec_file_name(s))
}

/// The extension of a path's file name: what follows the last dot,
/// empty when the name has no dot past its first character.
pub open spec fn spec_extension(s: Seq<char>) -> Seq<char> {
    let name = spec_file_name(s);
    if spec_last_dot(name) > 0 {
        name.skip(spec_last_dot(name) + 1)
    } else {
        Seq::<char>::empty()
    }
}

/// One character lowered to ASCII lower case.
pub open spec fn spec_lower_char(c: char) -> char {
    if 'A' <= c && c <= 'Z' {
        ((c as u8) + 32) as char
    } else {
        c
    }
}

/// A sequence lowered to ASCII lower case character by character.
pub open spec fn spec_ascii_lower(s: Seq<char>) -> Seq<char> {
    Seq::new(s.len(), |i: int| spec_lower_char(s[i]))
}

/// The path's extension in ASCII lower case.
pub open spec fn spec_extension_lower(s: Seq<char>) -> Seq<char> {
    spec_ascii_lower(spec_extension(s))
}

/// Finds where the file name starts in a vector of path characters.
pub(crate) fn name_start(v: &Vec<char>) -> (r: usize)
    ensures
        r as int == spec_name_start(v@),
        r <= v@.len(),
{
    let mut i: usize = v.len();
    proof {
        assert(v@.take(v@.len() as int) =~= v@);
    }
    while i > 0 && !(v[i - 1] == '/' || v[i - 1] == '\\')
        invariant
            i <= v@.len(),
            spec_name_start(v@) == spec_name_start(v@.take(i as int)),
            forall|k: int| i <= k < v@.len() ==> !spec_is_path_sep(v@[k]),
        decreases i,
    {
        proof {
            let ghost cur = v@.take(i as int);
            assert(cur[cur.len() - 1] == v@[i - 1]);
            assert(cur.take(cur.len() - 1) =~= v@.take(i - 1 as int));
        }
        i = i - 1;
    }
    proof {
        if i > 0 {
            let ghost cur = v@.take(i as int);
            assert(cur[cur.len() - 1] == v@[i - 1]);
            assert(spec_name_start(cur) == i as int);
        }
    }
    i
}

/// Finds the last dot of a name, or the name's length when there is none.
pub(crate) fn last_dot(v: &Vec<char>) -> (r: Option<usize>)
    ensures
        match r {
            Some(k) => k < v@.len() && spec_last_dot(v@) == k as int,
            None => spec_last_dot(v@) == -1,
        },
{
    let mut i: usize = v.len();
    proof {
        assert(v@.take(v@.len() as int) =~= v@);
    }
    while i > 0 && v[i - 1] != '.'
        invariant
            i <= v@.len(),
            spec_last_dot(v@) == spec_last_dot(v@.take(i as int)),
        decreases i,
    {
        proof {
            let ghost cur = v@.take(i as int);
            assert(cur[cur.len() - 1] == v@[i - 1]);
            assert(cur.take(cur.len() - 1) =~= v@.take(i - 1 as int));
        }
        i = i - 1;
    }
    if i > 0 {
        proof {
            let ghost cur = v@.take(i as int);
            assert(cur[cur.len() - 1] == v@[i - 1]);
        }
        Some(i - 1)
    } else {
        None
    }
}

/// Copies `v[from..to]` into a fresh vector.
pub(crate) fn subrange_vec(v: &Vec<char>, from: usize, to: usize) -> (r: Vec<char>)
    requires
        from <= to <= v@.len(),
    ensures
        r@ == v@.subrange(from as int, to as int),
{
    let mut out: Vec<char> = Vec::new();
    let mut j: usize = from;
    while j < to
        invariant
            from <= j <= to <= v@.len(),
            out@ == v@.subrange(from as int, j as int),
        decreases to - j,
    {
        out.push(v[j]);
        j = j + 1;
        proof {
            assert(out@ =~= v@.subrange(from as int, j as int));
        }
    }
    out
}

/// The file-name part of a path string, as characters.
pub fn file_name_chars(path: &str) -> (r: Vec<char>)
    ensures
        r@ == spec_file_name(path@),
{
    let v = str_to_chars(path);
    let start = name_start(&v);
    let r = subrange_vec(&v, start, v.len());
    proof {
        assert(v@.subrange(spec_name_start(v@), v@.len() as int) =~= v@.skip(spec_name_start(v@)));
    }
    r
}

/// The stem of a path's file name, as characters.
pub fn file_stem_chars(path: &str) -> (r: Vec<char>)
    ensures
        r@ == spec_file_stem(path@),
{
    let name = file_name_chars(path);
    match last_dot(&name) {
        Some(k) => {
            if k > 0 {
                let r = subrange_vec(&name, 0, k);
                proof {
                    assert(name@.subrange(0, k as int) =~= name@.take(k as int));
                }
                r
            } else {
                name
            }
        },
        None => name,
    }
}

/// Lowers a vector of characters to ASCII lower case.
fn lower_chars(v: &Vec<char>) -> (r: Vec<char>)
    ensures
        r@ == spec_ascii_lower(v@),
{
    let mut out: Vec<char> = Vec::new();
    let mut i: usize = 0;
    while i < v.len()
        invariant
            i <= v@.len(),
            out@ == spec_ascii_lower(v@).take(i as int),
        decreases v@.len() - i,
    {
        let c = v[i];
        if 'A' <= c && c <= 'Z' {
            out.push(((c as u8) + 32) as char);
        } else {
            out.push(c);
        }
        i = i + 1;
        proof {
            assert(out@ =~= spec_ascii_lower(v@).take(i as int));
        }
    }
    proof {
        assert(spec_ascii_lower(v@).take(v@.len() as int) =~= spec_ascii_lower(v@));
    }
    out
}

/// The extension of a path's file name, lowered to ASCII lower case.
pub fn extension_lower_chars(path: &str) -> (r: Vec<char>)
    ensures
        r@ == spec_extension_lower(path@),
{
    let name = file_name_chars(path);
    match last_dot(&name) {
        Some(k) => {
            let n = name.len();
            if k > 0 {
                let ext = subrange_vec(&name, k + 1, n);
                proof {
                    assert(name@.subrange(k + 1 as int, name@.len() as int) =~= name@.skip(
                        k + 1 as int,
                    ));
                }
                lower_chars(&ext)
            } else {
                proof {
                    assert(spec_ascii_lower(Seq::<char>::empty()) =~= Seq::<char>::empty());
                }
                Vec::new()
            }
        },
        None => {
            proof {
                assert(spec_ascii_lower(Seq::<char>::empty()) =~= Seq::<char>::empty());
            }
            Vec::new()
        },
    }
}

/// Compares two character vectors.
pub fn chars_eq(a: &Vec<char>, b: &Vec<char>) -> (r: bool)
    ensures
        r == (a@ == b@),
{
    if a.len() != b.len() {
        proof {
            assert(a@.len() != b@.len());
        }
        return false;
    }
    let mut i: usize = 0;
    while i < a.len()
        invariant
            a@.len() == b@.len(),
            i <= a@.len(),
            forall|k: int| 0 <= k < i ==> a@[k] == b@[k],
        decreases a@.len() - i,
    {
        if a[i] != b[i] {
            return false;
        }
        i = i + 1;
    }
    proof {
        assert(a@ =~= b@);
    }
    true
}

/// Joins a directory and a file name with a forward slash; an empty
/// directory gives the bare name.
pub fn join_path(dir: &str, name: &str) -> (r: String)
    ensures
        dir@.len() == 0 ==> r@ == name@,
        dir@.len() > 0 ==> r@ == dir@ + seq!['/'] + name@,
{
    if dir.unicode_len() == 0 {
        let mut r = String::new();
        r.append(name);
        proof {
            assert(r@ =~= name@);
        }
        r
    } else {
        let mut r = String::new();
        r.append(dir);
        push_char(&mut r, '/');
        r.append(name);
        proof {
            assert(r@ =~= dir@ + seq!['/'] + name@);
        }
        r
    }
}


/// A path capped to a maximum length: a longer path has its file stem
/// shortened so that directory, stem and extension fit exactly; a path
/// whose directory and extension alone exceed the cap, leaving no room
/// for even one stem character, stays unchanged.
pub open spec fn spec_ensure_path_length(s: Seq<char>, max_length: int) -> Seq<char> {
    if s.len() <= max_length {
        s
    } else {
        let ns = spec_name_start(s);
        let name = s.skip(ns);
        let dot = spec_last_dot(name);
        let stem_len = if dot > 0 {
            dot
        } else {
            name.len() as int
        };
        let ext_len = name.len() - stem_len;
        let budget = max_length - ns - ext_len;
        if budget < 1 {
            s
        } else {
            s.take(ns) + name.take(budget) + name.skip(stem_len)
        }
    }
}

/// Caps a path at a maximum length by shortening its file stem; the
/// directory and the extension are kept as they are.
pub fn ensure_path_length_str(path: &str, max_length: usize) -> (r: String)
    ensures
        r@ == spec_ensure_path_length(path@, max_length as int),
{
    let cs = str_to_chars(path);
    if cs.len() <= max_length {
        let mut r = String::new();
        r.append(path);
        proof {
            assert(r@ =~= path@);
        }
        return r;
    }
    let ns = name_start(&cs);
    let name = subrange_vec(&cs, ns, cs.len());
    proof {
        assert(name@ =~= cs@.skip(ns as int));
    }
    let stem_len: usize = match last_dot(&name) {
        Some(k) => if k > 0 {
            k
        } else {
            name.len()
        },
        None => name.len(),
    };
    let ext_len = name.len() - stem_len;
    if ns + ext_len >= max_length {
        let mut r = String::new();
        r.append(path);
        proof {
            assert(r@ =~= path@);
        }
        return r;
    }
    let budget = max_length - ns - ext_len;
    let mut out: Vec<char> = subrange_vec(&cs, 0, ns);
    let mut stem_part = subrange_vec(&name, 0, budget);
    proof {
        assert(stem_part@ =~= cs@.skip(ns as int).take(budget as int));
    }
    out.append(&mut stem_part);
    let mut ext_part = subrange_vec(&name, stem_len, name.len());
    proof {
        assert(ext_part@ =~= cs@.skip(ns as int).skip(stem_len as int));
    }
    out.append(&mut ext_part);
    proof {
        assert(out@ =~= spec_ensure_path_length(path@, max_length as int));
    }
    crate::text::chars_to_string(&out)
}

} // verus!
