//! File checks that work on the path's text alone; dialogs and
//! filesystem checks live in the surrounding application.

use vstd::prelude::*;
use crate::paths::{spec_extension_lower, extension_lower_chars, chars_eq};
use crate::text::str_to_chars;

verus! {

/// File-level helpers.
pub struct FileUtils;

impl FileUtils {
    /// Decides whether the path names a supported audio file: only Ogg
    /// Vorbis input is accepted, judged by the extension, ignoring case.
    pub fn is_supported_audio_file(path: &str) -> (r: bool)
        ensures
            r == (spec_extension_lower(path@) == "ogg"@),
    {
        let ext = extension_lower_chars(path);
        let ogg = str_to_chars("ogg");
        chars_eq(&ext, &ogg)
    }
}

/// File-copy helpers whose naming logic is plain text work; the copying
/// itself lives in the surrounding application.
pub struct FileOperations;

impl FileOperations {
    /// The safe ASCII file stem for one copied file.
    pub fn generate_ascii_filename_pinyin(original_name: &str, index: usize) -> (r: String)
        ensures
            r@ == crate::strings::spec_safe_filename(original_name@, index as nat),
    {
        crate::strings::StringUtils::safe_filename_pinyin(original_name, index)
    }
}

} // verus!
