//! Whole-file video conversion: the converter record, the supported
//! input formats, and the probe-output parsing.

use vstd::prelude::*;
use crate::paths::{spec_extension_lower, extension_lower_chars, chars_eq};

verus! {

/// What the probe reports of a video: its duration in seconds and its
/// resolution in pixels.
#[derive(Debug)]
pub struct VideoInfo {
    /// Seconds the video runs.
    pub duration: u32,
    /// Width and height in pixels.
    pub resolution: (u32, u32),
}

impl Clone for VideoInfo {
    /// An exact copy of the record.
    fn clone(&self) -> (r: Self)
        ensures
            r == *self,
    {
        VideoInfo { duration: self.duration, resolution: (self.resolution.0, self.resolution.1) }
    }
}

impl VideoInfo {
    /// An empty record: zero duration, zero resolution.
    pub fn new() -> (r: Self)
        ensures
            r.duration == 0,
            r.resolution.0 == 0,
            r.resolution.1 == 0,
    {
        VideoInfo { duration: 0, resolution: (0, 0) }
    }
}

impl Default for VideoInfo {
    /// Same as [`VideoInfo::new`].
    fn default() -> (r: Self)
        ensures
            r.duration == 0,
            r.resolution.0 == 0,
            r.resolution.1 == 0,
    {
        VideoInfo { duration: 0, resolution: (0, 0) }
    }
}

/// The container extensions accepted as video input, lower-cased.
pub open spec fn spec_is_supported_video_ext(e: Seq<char>) -> bool {
    e == "mp4"@ || e == "avi"@ || e == "mov"@ || e == "mkv"@ || e == "wmv"@ || e == "flv"@ || e
        == "webm"@ || e == "m4v"@ || e == "3gp"@ || e == "ogv"@
}

/// The whole-file video converter around one transcoder binary.
#[derive(Debug, Clone)]
pub struct VideoConverter {
    /// The external transcoder invoked for every conversion.
    pub ffmpeg_path: String,
}

impl VideoConverter {
    /// Builds a converter around an already-located transcoder binary.
    pub fn new(ffmpeg_path: String) -> (r: Self)
        ensures
            r.ffmpeg_path == ffmpeg_path,
    {
        VideoConverter { ffmpeg_path }
    }

    /// Same as [`VideoConverter::new`], named for callers that carry an
    /// explicit path.
    pub fn new_with_path(ffmpeg_path: String) -> (r: Self)
        ensures
            r.ffmpeg_path == ffmpeg_path,
    {
        VideoConverter { ffmpeg_path }
    }

    /// Parses an `HH:MM:SS[.mmm]` duration stamp into whole seconds.
    pub fn parse_duration(&self, s: &str) -> (r: u32)
        ensures
            r as int == crate::probe::spec_parse_duration(s@),
    {
        crate::probe::parse_duration_str(s)
    }

    /// Pulls the `WIDTHxHEIGHT` resolution out of a probe stream line.
    pub fn extract_resolution(&self, line: &str) -> (r: Option<(u32, u32)>)
        ensures
            r == crate::probe::spec_extract_resolution(line@),
    {
        crate::probe::extract_resolution_str(line)
    }

    /// Decides whether the path's extension names a supported video
    /// container, ignoring case.
    pub fn is_supported_video_format(&self, path: &str) -> (r: bool)
        ensures
            r == spec_is_supported_video_ext(spec_extension_lower(path@)),
    {
        let ext = extension_lower_chars(path);
        is_supported_video_ext(&ext)
    }
}

fn is_supported_video_ext(ext: &Vec<char>) -> (r: bool)
    ensures
        r == spec_is_supported_video_ext(ext@),
{
    let candidates = supported_video_exts();
    let mut i: usize = 0;
    let mut found = false;
    while i < candidates.len()
        invariant
            i <= candidates@.len(),
            candidates@.len() == 10,
            (candidates@[0]@ == "mp4"@ && candidates@[1]@ == "avi"@ && candidates@[2]@ == "mov"@
                && candidates@[3]@ == "mkv"@ && candidates@[4]@ == "wmv"@ && candidates@[5]@
                == "flv"@ && candidates@[6]@ == "webm"@ && candidates@[7]@ == "m4v"@
                && candidates@[8]@ == "3gp"@ && candidates@[9]@ == "ogv"@),
            found == exists|k: int| 0 <= k < i && ext@ == candidates@[k]@,
        decreases candidates@.len() - i,
    {
        let cv = crate::text::str_to_chars(candidates[i].as_str());
        if chars_eq(ext, &cv) {
            found = true;
        }
        i = i + 1;
    }
    found
}

fn supported_video_exts() -> (r: Vec<String>)
    ensures
        r@.len() == 10,
        r@[0]@ == "mp4"@ && r@[1]@ == "avi"@ && r@[2]@ == "mov"@ && r@[3]@ == "mkv"@ && r@[4]@
            == "wmv"@ && r@[5]@ == "flv"@ && r@[6]@ == "webm"@ && r@[7]@ == "m4v"@ && r@[8]@
            == "3gp"@ && r@[9]@ == "ogv"@,
{
    let mut v: Vec<String> = Vec::new();
    v.push(String::from_str("mp4"));
    v.push(String::from_str("avi"));
    v.push(String::from_str("mov"));
    v.push(String::from_str("mkv"));
    v.push(String::from_str("wmv"));
    v.push(String::from_str("flv"));
    v.push(String::from_str("webm"));
    v.push(String::from_str("m4v"));
    v.push(String::from_str("3gp"));
    v.push(String::from_str("ogv"));
    v
}

} // verus!
