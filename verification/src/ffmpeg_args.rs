//! The exact argument lists and the concatenation manifest handed to the
//! external transcoder.  Nothing here runs a process; the surrounding
//! application spawns the transcoder with what these functions build.

use vstd::prelude::*;
use crate::chunking::{VideoChunk, VideoChunkConverter};
use crate::numfmt::{dec_str, u64_to_string};
use crate::video::VideoConverter;

verus! {

/// The views of a sequence of strings.
pub open spec fn views_of(v: Seq<String>) -> Seq<Seq<char>> {
    v.map_values(|s: String| s@)
}

fn push_lit(v: &mut Vec<String>, s: &str)
    ensures
        views_of(final(v)@) == views_of(old(v)@).push(s@),
{
    v.push(String::from_str(s));
    proof {
        assert(views_of(v@) =~= views_of(old(v)@).push(s@));
    }
}

fn push_owned(v: &mut Vec<String>, s: String)
    ensures
        views_of(final(v)@) == views_of(old(v)@).push(s@),
{
    let ghost sv = s@;
    v.push(s);
    proof {
        assert(views_of(v@) =~= views_of(old(v)@).push(sv));
    }
}

/// The fixed-quality fast-mode argument list for one segment: the time
/// window, the fixed encoders and qualities, and the overwrite flag.
pub open spec fn spec_fast_chunk_args(
    input: Seq<char>,
    start: u32,
    duration: u32,
    output: Seq<char>,
) -> Seq<Seq<char>> {
    seq![
        "-i"@,
        input,
        "-ss"@,
        dec_str(start as nat),
        "-t"@,
        dec_str(duration as nat),
        "-c:v"@,
        "libtheora"@,
        "-q:v"@,
        "6"@,
        "-speed"@,
        "8"@,
        "-threads"@,
        "0"@,
        "-c:a"@,
        "libvorbis"@,
        "-q:a"@,
        "6"@,
        "-ac"@,
        "2"@,
        "-avoid_negative_ts"@,
        "make_zero"@,
        "-preset"@,
        "ultrafast"@,
        "-tune"@,
        "fastdecode"@,
        "-movflags"@,
        "+faststart"@,
        "-no-scenecut"@,
        "1"@,
        "-g"@,
        "30"@,
        "-y"@,
        output,
    ]
}

/// The quality-parameterized standard argument list for one segment.
pub open spec fn spec_standard_chunk_args(
    input: Seq<char>,
    start: u32,
    duration: u32,
    video_quality: u8,
    audio_quality: u8,
    output: Seq<char>,
) -> Seq<Seq<char>> {
    seq![
        "-i"@,
        input,
        "-ss"@,
        dec_str(start as nat),
        "-t"@,
        dec_str(duration as nat),
        "-c:v"@,
        "libtheora"@,
        "-q:v"@,
        dec_str(video_quality as nat),
        "-speed"@,
        "8"@,
        "-threads"@,
        "0"@,
        "-c:a"@,
        "libvorbis"@,
        "-q:a"@,
        dec_str(audio_quality as nat),
        "-ac"@,
        "2"@,
        "-avoid_negative_ts"@,
        "make_zero"@,
        "-preset"@,
        "ultrafast"@,
        "-tune"@,
        "fastdecode"@,
        "-movflags"@,
        "+faststart"@,
        "-y"@,
        output,
    ]
}

/// The argument list that converts one segment: the fast list in fast
/// mode, the standard list otherwise.
pub open spec fn spec_chunk_args(
    fast_mode: bool,
    input: Seq<char>,
    start: u32,
    duration: u32,
    video_quality: u8,
    audio_quality: u8,
    output: Seq<char>,
) -> Seq<Seq<char>> {
    if fast_mode {
        spec_fast_chunk_args(input, start, duration, output)
    } else {
        spec_standard_chunk_args(input, start, duration, video_quality, audio_quality, output)
    }
}

impl VideoChunkConverter {
    /// Builds the transcoder arguments that convert one segment, bound
    /// to the segment's time window and output file.
    pub fn build_chunk_args(&self, chunk: &VideoChunk, video_quality: u8, audio_quality: u8) -> (r:
        Vec<String>)
        ensures
            views_of(r@) == spec_chunk_args(
                self.config.fast_mode,
                chunk.input_path@,
                chunk.start_time,
                chunk.duration,
                video_quality,
                audio_quality,
                chunk.output_path@,
            ),
    {
        let mut v: Vec<String> = Vec::new();
        push_lit(&mut v, "-i");
        push_owned(&mut v, clone_string(&chunk.input_path));
        push_lit(&mut v, "-ss");
        push_owned(&mut v, u64_to_string(chunk.start_time as u64));
        push_lit(&mut v, "-t");
        push_owned(&mut v, u64_to_string(chunk.duration as u64));
        push_lit(&mut v, "-c:v");
        push_lit(&mut v, "libtheora");
        push_lit(&mut v, "-q:v");
        if self.config.fast_mode {
            push_lit(&mut v, "6");
        } else {
            push_owned(&mut v, u64_to_string(video_quality as u64));
        }
        push_lit(&mut v, "-speed");
        push_lit(&mut v, "8");
        push_lit(&mut v, "-threads");
        push_lit(&mut v, "0");
        push_lit(&mut v, "-c:a");
        push_lit(&mut v, "libvorbis");
        push_lit(&mut v, "-q:a");
        if self.config.fast_mode {
            push_lit(&mut v, "6");
        } else {
            push_owned(&mut v, u64_to_string(audio_quality as u64));
        }
        push_lit(&mut v, "-ac");
        push_lit(&mut v, "2");
        push_lit(&mut v, "-avoid_negative_ts");
        push_lit(&mut v, "make_zero");
        push_lit(&mut v, "-preset");
        push_lit(&mut v, "ultrafast");
        push_lit(&mut v, "-tune");
        push_lit(&mut v, "fastdecode");
        push_lit(&mut v, "-movflags");
        push_lit(&mut v, "+faststart");
        if self.config.fast_mode {
            push_lit(&mut v, "-no-scenecut");
            push_lit(&mut v, "1");
            push_lit(&mut v, "-g");
            push_lit(&mut v, "30");
        }
        push_lit(&mut v, "-y");
        push_owned(&mut v, clone_string(&chunk.output_path));
        proof {
            if self.config.fast_mode {
                assert(views_of(v@) =~~= spec_fast_chunk_args(
                    chunk.input_path@,
                    chunk.start_time,
                    chunk.duration,
                    chunk.output_path@,
                ));
            } else {
                assert(views_of(v@) =~~= spec_standard_chunk_args(
                    chunk.input_path@,
                    chunk.start_time,
                    chunk.duration,
                    video_quality,
                    audio_quality,
                    chunk.output_path@,
                ));
            }
        }
        v
    }
}

/// The concatenation manifest: one `file '<path>'` line per segment
/// output, in index order.
pub open spec fn spec_merge_manifest(paths: Seq<Seq<char>>) -> Seq<char>
    decreases paths.len(),
{
    if paths.len() == 0 {
        Seq::<char>::empty()
    } else {
        "file '"@ + paths[0] + "'\n"@ + spec_merge_manifest(paths.skip(1))
    }
}

/// The output paths of a plan's segments, in order.
pub open spec fn spec_chunk_paths(chunks: Seq<VideoChunk>) -> Seq<Seq<char>> {
    chunks.map_values(|c: VideoChunk| c.output_path@)
}

/// Appending one path appends one manifest line.
proof fn lemma_manifest_push(paths: Seq<Seq<char>>, p: Seq<char>)
    ensures
        spec_merge_manifest(paths.push(p)) == spec_merge_manifest(paths) + "file '"@ + p + "'\n"@,
    decreases paths.len(),
{
    if paths.len() == 0 {
        let q = paths.push(p);
        assert(q.skip(1) =~= Seq::<Seq<char>>::empty());
        assert(q[0] == p);
        assert(q.len() == 1);
        assert(spec_merge_manifest(q) == "file '"@ + q[0] + "'\n"@ + spec_merge_manifest(q.skip(1)));
        assert(spec_merge_manifest(Seq::<Seq<char>>::empty()) == Seq::<char>::empty());
        assert(spec_merge_manifest(paths.push(p)) =~= spec_merge_manifest(paths) + "file '"@ + p
            + "'\n"@);
    } else {
        assert(paths.push(p).skip(1) =~= paths.skip(1).push(p));
        assert(paths.push(p)[0] == paths[0]);
        lemma_manifest_push(paths.skip(1), p);
        assert(spec_merge_manifest(paths.push(p)) =~= spec_merge_manifest(paths) + "file '"@ + p
            + "'\n"@);
    }
}

impl VideoChunkConverter {
    /// Whether merging needs the concatenation mode: only a task of more
    /// than one segment does; a single segment is copied as it is.
    pub fn needs_concat(&self, chunks: &Vec<VideoChunk>) -> (r: bool)
        ensures
            r == (chunks@.len() > 1),
    {
        chunks.len() > 1
    }

    /// Writes the concatenation manifest for a plan's segments: one
    /// `file '<path>'` line per segment, in index order.
    pub fn merge_manifest(&self, chunks: &Vec<VideoChunk>) -> (r: String)
        ensures
            r@ == spec_merge_manifest(spec_chunk_paths(chunks@)),
    {
        let mut s = String::new();
        let mut i: usize = 0;
        proof {
            assert(spec_chunk_paths(chunks@.take(0)) =~= Seq::<Seq<char>>::empty());
        }
        while i < chunks.len()
            invariant
                i <= chunks@.len(),
                s@ == spec_merge_manifest(spec_chunk_paths(chunks@.take(i as int))),
            decreases chunks@.len() - i,
        {
            s.append("file '");
            s.append(chunks[i].output_path.as_str());
            s.append("'\n");
            proof {
                lemma_manifest_push(
                    spec_chunk_paths(chunks@.take(i as int)),
                    chunks@[i as int].output_path@,
                );
                assert(spec_chunk_paths(chunks@.take(i + 1 as int)) =~= spec_chunk_paths(
                    chunks@.take(i as int),
                ).push(chunks@[i as int].output_path@));
                assert(s@ =~= spec_merge_manifest(spec_chunk_paths(chunks@.take(i + 1 as int))));
            }
            i = i + 1;
        }
        proof {
            assert(chunks@.take(chunks@.len() as int) =~= chunks@);
        }
        s
    }
}

/// The argument list that concatenates finished segments by stream copy:
/// the manifest, no re-encoding, and the overwrite flag.
pub open spec fn spec_merge_args(manifest: Seq<char>, output: Seq<char>) -> Seq<Seq<char>> {
    seq![
        "-f"@,
        "concat"@,
        "-safe"@,
        "0"@,
        "-i"@,
        manifest,
        "-c"@,
        "copy"@,
        "-y"@,
        output,
    ]
}

/// The argument list that probes a file's duration and streams.
pub open spec fn spec_probe_args(input: Seq<char>) -> Seq<Seq<char>> {
    seq!["-i"@, input, "-f"@, "null"@, "-"@]
}

impl VideoChunkConverter {
    /// Builds the transcoder arguments that concatenate the segment
    /// outputs listed in a manifest file into the final output.
    pub fn build_merge_args(&self, manifest_path: &str, output_path: &str) -> (r: Vec<String>)
        ensures
            views_of(r@) == spec_merge_args(manifest_path@, output_path@),
    {
        let mut v: Vec<String> = Vec::new();
        push_lit(&mut v, "-f");
        push_lit(&mut v, "concat");
        push_lit(&mut v, "-safe");
        push_lit(&mut v, "0");
        push_lit(&mut v, "-i");
        push_lit(&mut v, manifest_path);
        push_lit(&mut v, "-c");
        push_lit(&mut v, "copy");
        push_lit(&mut v, "-y");
        push_lit(&mut v, output_path);
        proof {
            assert(views_of(v@) =~~= spec_merge_args(manifest_path@, output_path@));
        }
        v
    }

    /// Builds the transcoder arguments that probe one input.
    pub fn build_probe_args(&self, input_path: &str) -> (r: Vec<String>)
        ensures
            views_of(r@) == spec_probe_args(input_path@),
    {
        let mut v: Vec<String> = Vec::new();
        push_lit(&mut v, "-i");
        push_lit(&mut v, input_path);
        push_lit(&mut v, "-f");
        push_lit(&mut v, "null");
        push_lit(&mut v, "-");
        proof {
            assert(views_of(v@) =~~= spec_probe_args(input_path@));
        }
        v
    }
}

/// The quality-parameterized argument list that converts one whole video.
pub open spec fn spec_ogv_args(
    input: Seq<char>,
    video_quality: u8,
    audio_quality: u8,
    output: Seq<char>,
) -> Seq<Seq<char>> {
    seq![
        "-i"@,
        input,
        "-c:v"@,
        "libtheora"@,
        "-q:v"@,
        dec_str(video_quality as nat),
        "-speed"@,
        "8"@,
        "-threads"@,
        "0"@,
        "-c:a"@,
        "libvorbis"@,
        "-q:a"@,
        dec_str(audio_quality as nat),
        "-ac"@,
        "2"@,
        "-y"@,
        output,
    ]
}

impl VideoConverter {
    /// Builds the transcoder arguments that convert one whole video at
    /// the given qualities.
    pub fn build_ogv_args(&self, input_path: &str, output_path: &str, video_quality: u8, audio_quality: u8) -> (r: Vec<String>)
        ensures
            views_of(r@) == spec_ogv_args(input_path@, video_quality, audio_quality, output_path@),
    {
        let mut v: Vec<String> = Vec::new();
        push_lit(&mut v, "-i");
        push_lit(&mut v, input_path);
        push_lit(&mut v, "-c:v");
        push_lit(&mut v, "libtheora");
        push_lit(&mut v, "-q:v");
        push_owned(&mut v, u64_to_string(video_quality as u64));
        push_lit(&mut v, "-speed");
        push_lit(&mut v, "8");
        push_lit(&mut v, "-threads");
        push_lit(&mut v, "0");
        push_lit(&mut v, "-c:a");
        push_lit(&mut v, "libvorbis");
        push_lit(&mut v, "-q:a");
        push_owned(&mut v, u64_to_string(audio_quality as u64));
        push_lit(&mut v, "-ac");
        push_lit(&mut v, "2");
        push_lit(&mut v, "-y");
        push_lit(&mut v, output_path);
        proof {
            assert(views_of(v@) =~~= spec_ogv_args(
                input_path@,
                video_quality,
                audio_quality,
                output_path@,
            ));
        }
        v
    }

    /// Builds the default-quality arguments that convert one whole
    /// video: quality five for video, three for audio.
    pub fn build_ogv_args_default(&self, input_path: &str, output_path: &str) -> (r: Vec<String>)
        ensures
            views_of(r@) == spec_ogv_args(input_path@, 5, 3, output_path@),
    {
        self.build_ogv_args(input_path, output_path, 5, 3)
    }
}

/// Copies a string.
fn clone_string(s: &String) -> (r: String)
    ensures
        r@ == s@,
{
    s.clone()
}


/// The fixed-quality argument list that converts one audio file to Ogg
/// Vorbis.
pub open spec fn spec_ogg_args_spec(input: Seq<char>, output: Seq<char>) -> Seq<Seq<char>> {
    seq!["-i"@, input, "-c:a"@, "libvorbis"@, "-q:a"@, "5"@, "-y"@, output]
}

/// Builds the transcoder arguments that convert one audio file to Ogg
/// Vorbis at the fixed middle quality.
pub fn build_ogg_args_list(input_path: &str, output_path: &str) -> (r: Vec<String>)
    ensures
        views_of(r@) == spec_ogg_args_spec(input_path@, output_path@),
{
    let mut v: Vec<String> = Vec::new();
    push_lit(&mut v, "-i");
    push_lit(&mut v, input_path);
    push_lit(&mut v, "-c:a");
    push_lit(&mut v, "libvorbis");
    push_lit(&mut v, "-q:a");
    push_lit(&mut v, "5");
    push_lit(&mut v, "-y");
    push_lit(&mut v, output_path);
    proof {
        assert(views_of(v@) =~~= spec_ogg_args_spec(input_path@, output_path@));
    }
    v
}

} // verus!
