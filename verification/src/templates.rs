//! The data handed to the package templates, and the text shaping the
//! generated configuration files need.  Rendering and writing the files
//! is template-engine and file work that lives in the surrounding
//! application.

use vstd::prelude::*;
use crate::models::ProjectSettings;
use crate::text::{
    spec_is_ascii_alnum, spec_is_ascii_punct, is_ascii_alnum, is_ascii_punct, str_to_chars,
    chars_to_string,
};

verus! {

/// The values the main configuration template consumes.
#[derive(Debug, Clone)]
pub struct ConfigTemplateData {
    /// The package name as a folder name.
    pub mod_name_no_spaces: String,
    /// The package name, ASCII-sanitized.
    pub mod_name: String,
    /// The author, ASCII-sanitized.
    pub author_name: String,
    /// The configuration class name.
    pub class_name: String,
}

/// The values the package-description template consumes.
#[derive(Debug, Clone)]
pub struct ModTemplateData {
    /// The package name.
    pub mod_name: String,
    /// The author.
    pub author_name: String,
}

/// The values the track-list template consumes, one record per track.
#[derive(Debug, Clone)]
pub struct TrackTemplateData {
    /// The track's configuration class.
    pub track_class: String,
    /// The name shown in game.
    pub track_name: String,
    /// The sound file's path inside the package.
    pub track_path: String,
    /// The decibel adjustment, already rendered.
    pub decibels: String,
    /// Seconds the track runs.
    pub duration: u32,
    /// The project's class name.
    pub class_name: String,
}

/// ASCII whitespace as the configuration files accept it.
pub open spec fn spec_is_config_space(c: char) -> bool {
    c == ' ' || c == '\t' || c == '\n' || c == '\r' || c == '\u{b}' || c == '\u{c}'
}

/// A name mapped character by character for the configuration files:
/// ASCII letters, digits, punctuation and whitespace stay, everything
/// else becomes an underscore.
pub open spec fn spec_config_ascii(s: Seq<char>) -> Seq<char> {
    Seq::new(
        s.len(),
        |i: int|
            if spec_is_ascii_alnum(s[i]) || spec_is_ascii_punct(s[i]) || spec_is_config_space(
                s[i],
            ) {
                s[i]
            } else {
                '_'
            },
    )
}

/// Maps a name for the configuration files: ASCII letters, digits,
/// punctuation and whitespace stay, everything else becomes an
/// underscore.
pub fn config_ascii(input: &str) -> (r: String)
    ensures
        r@ == spec_config_ascii(input@),
{
    let cs = str_to_chars(input);
    let mut out: Vec<char> = Vec::new();
    let mut i: usize = 0;
    while i < cs.len()
        invariant
            i <= cs@.len(),
            out@ == spec_config_ascii(cs@).take(i as int),
        decreases cs@.len() - i,
    {
        let c = cs[i];
        if is_ascii_alnum(c) || is_ascii_punct(c) || c == ' ' || c == '\t' || c == '\n' || c
            == '\r' || c == '\u{b}' || c == '\u{c}' {
            out.push(c);
        } else {
            out.push('_');
        }
        i = i + 1;
        proof {
            assert(out@ =~= spec_config_ascii(cs@).take(i as int));
        }
    }
    proof {
        assert(spec_config_ascii(cs@).take(cs@.len() as int) =~= spec_config_ascii(cs@));
    }
    chars_to_string(&out)
}

/// Builds the main template's data from the project: the folder name,
/// the ASCII-sanitized names, and the class name.
pub fn build_config_template_data(project: &ProjectSettings) -> (r: ConfigTemplateData)
    ensures
        r.mod_name@ == spec_config_ascii(project.mod_name@),
        r.author_name@ == spec_config_ascii(project.author_name@),
        r.class_name@ == project.class_name@,
{
    ConfigTemplateData {
        mod_name_no_spaces: project.mod_name_no_spaces(),
        mod_name: config_ascii(project.mod_name.as_str()),
        author_name: config_ascii(project.author_name.as_str()),
        class_name: project.class_name.clone(),
    }
}

/// What one character becomes under line-ending normalization: a bare
/// line feed becomes carriage return and line feed.
pub open spec fn spec_crlf_char(c: char) -> Seq<char> {
    if c == '\n' {
        seq!['\r', '\n']
    } else {
        seq![c]
    }
}

/// A text with every line feed turned into carriage return and line
/// feed.
pub open spec fn spec_crlf(s: Seq<char>) -> Seq<char>
    decreases s.len(),
{
    if s.len() == 0 {
        Seq::<char>::empty()
    } else {
        spec_crlf_char(s[0]) + spec_crlf(s.skip(1))
    }
}

/// The generated files' final shape: normalized line endings, and a
/// terminating line ending when the text lacks one.
pub open spec fn spec_config_file_text(s: Seq<char>) -> Seq<char> {
    let t = spec_crlf(s);
    if t.len() >= 2 && t[t.len() - 2] == '\r' && t[t.len() - 1] == '\n' {
        t
    } else {
        t + seq!['\r', '\n']
    }
}

proof fn lemma_crlf_push(s: Seq<char>, c: char)
    ensures
        spec_crlf(s.push(c)) == spec_crlf(s) + spec_crlf_char(c),
    decreases s.len(),
{
    if s.len() == 0 {
        let q = s.push(c);
        assert(q.skip(1) =~= Seq::<char>::empty());
        assert(q[0] == c);
        assert(q.len() == 1);
        assert(spec_crlf(q) == spec_crlf_char(c) + spec_crlf(q.skip(1)));
        assert(spec_crlf(Seq::<char>::empty()) == Seq::<char>::empty());
        assert(spec_crlf(s.push(c)) =~= spec_crlf(s) + spec_crlf_char(c));
    } else {
        assert(s.push(c).skip(1) =~= s.skip(1).push(c));
        assert(s.push(c)[0] == s[0]);
        lemma_crlf_push(s.skip(1), c);
        assert(spec_crlf(s.push(c)) =~= spec_crlf(s) + spec_crlf_char(c));
    }
}

/// Normalizes a rendered template to the generated files' final shape:
/// every line ending becomes carriage return and line feed, and the text
/// ends with one.
pub fn to_config_file_text(content: &str) -> (r: String)
    ensures
        r@ == spec_config_file_text(content@),
{
    let cs = str_to_chars(content);
    let mut out: Vec<char> = Vec::new();
    let mut i: usize = 0;
    while i < cs.len()
        invariant
            i <= cs@.len(),
            out@ == spec_crlf(cs@.take(i as int)),
        decreases cs@.len() - i,
    {
        let c = cs[i];
        if c == '\n' {
            out.push('\r');
            out.push('\n');
        } else {
            out.push(c);
        }
        proof {
            lemma_crlf_push(cs@.take(i as int), c);
            assert(cs@.take(i + 1 as int) =~= cs@.take(i as int).push(c));
            assert(out@ =~= spec_crlf(cs@.take(i + 1 as int)));
        }
        i = i + 1;
    }
    proof {
        assert(cs@.take(cs@.len() as int) =~= cs@);
    }
    let n = out.len();
    if n >= 2 && out[n - 2] == '\r' && out[n - 1] == '\n' {
        chars_to_string(&out)
    } else {
        out.push('\r');
        out.push('\n');
        proof {
            assert(out@ =~= spec_config_file_text(content@));
        }
        chars_to_string(&out)
    }
}

} // verus!
