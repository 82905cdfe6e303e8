//! Audio handling: the audio-file checks, the duration computation from
//! probe results, the whole-file audio conversion arguments, and the
//! cancellation-aware polling decision.

use vstd::prelude::*;
use crate::errors::ConversionError;
use crate::ffmpeg_args::{views_of, spec_ogg_args_spec};
use crate::paths::{spec_extension_lower, extension_lower_chars, chars_eq};
use crate::text::str_to_chars;

verus! {

/// What a probe reports of an audio file.
#[derive(Debug, Clone)]
pub struct AudioInfo {
    /// Seconds the audio runs.
    pub duration: u32,
}

/// Audio-file helpers.
pub struct AudioProcessor;

impl AudioProcessor {
    /// Decides whether the path names an Ogg Vorbis file by its
    /// extension, ignoring case.
    pub fn is_ogg_file(path: &str) -> (r: bool)
        ensures
            r == (spec_extension_lower(path@) == "ogg"@),
    {
        let ext = extension_lower_chars(path);
        let ogg = str_to_chars("ogg");
        chars_eq(&ext, &ogg)
    }

    /// The duration in whole seconds from a probe's frame count and
    /// sample rate: the frame count divided by the rate, a three-minute
    /// default when the probe gave no frame count, the largest duration
    /// when the rate is zero.
    pub fn audio_duration_seconds(n_frames: Option<u64>, sample_rate: Option<u32>) -> (r: u32)
        ensures
            ({
                let rate = match sample_rate {
                    Some(x) => x,
                    None => 44100,
                };
                match n_frames {
                    None => r == 180,
                    Some(f) => if rate == 0 {
                        r == u32::MAX
                    } else if f / (rate as u64) > u32::MAX as u64 {
                        r == u32::MAX
                    } else {
                        r as u64 == f / (rate as u64)
                    },
                }
            }),
    {
        let rate: u32 = match sample_rate {
            Some(x) => x,
            None => 44100,
        };
        match n_frames {
            None => 180,
            Some(f) => {
                if rate == 0 {
                    u32::MAX
                } else {
                    let q: u64 = f / (rate as u64);
                    if q > u32::MAX as u64 {
                        u32::MAX
                    } else {
                        q as u32
                    }
                }
            },
        }
    }
}

/// The whole-file audio converter around one transcoder binary.
#[derive(Debug)]
pub struct AudioConverter {
    /// The external transcoder invoked for every conversion.
    pub ffmpeg_path: String,
}

impl AudioConverter {
    /// Builds a converter around an already-located transcoder binary.
    pub fn new(ffmpeg_path: String) -> (r: Self)
        ensures
            r.ffmpeg_path == ffmpeg_path,
    {
        AudioConverter { ffmpeg_path }
    }

    /// Same as [`AudioConverter::new`], named for callers that carry an
    /// explicit path.
    pub fn new_with_path(ffmpeg_path: String) -> (r: Self)
        ensures
            r.ffmpeg_path == ffmpeg_path,
    {
        AudioConverter { ffmpeg_path }
    }

    /// Builds the transcoder arguments that convert one audio file to
    /// Ogg Vorbis at the fixed middle quality.
    pub fn build_ogg_args(&self, input_path: &str, output_path: &str) -> (r: Vec<String>)
        ensures
            views_of(r@) == spec_ogg_args_spec(input_path@, output_path@),
    {
        crate::ffmpeg_args::build_ogg_args_list(input_path, output_path)
    }
}

/// What the polling loop around a running conversion does next, decided
/// from the cancellation flag and the subprocess's state.
#[derive(Debug, Clone)]
pub enum PollStep {
    /// The subprocess exited successfully: the conversion succeeded.
    Finished,
    /// The subprocess exited with a failure: the conversion failed.
    FailedExit,
    /// Cancellation was observed while the subprocess ran: kill it and
    /// report the cancellation.
    KillAndCancel,
    /// The subprocess still runs and no cancellation was observed: sleep
    /// briefly and poll again.
    Sleep,
}

/// The polling decision of the single-file conversion path: a finished
/// subprocess settles the outcome; while it runs, an observed
/// cancellation kills it, otherwise the loop sleeps and polls again.
/// This is the one path that kills its subprocess on cancellation; the
/// segmented path only stops dispatching new segments.
pub fn poll_step(cancelled: bool, exit_success: Option<bool>) -> (r: PollStep)
    ensures
        exit_success == Some(true) ==> r is Finished,
        exit_success == Some(false) ==> r is FailedExit,
        exit_success is None && cancelled ==> r is KillAndCancel,
        exit_success is None && !cancelled ==> r is Sleep,
{
    match exit_success {
        Some(true) => PollStep::Finished,
        Some(false) => PollStep::FailedExit,
        None => {
            if cancelled {
                PollStep::KillAndCancel
            } else {
                PollStep::Sleep
            }
        },
    }
}

/// The outcome a settled polling step reports: the success message, the
/// failure carrying the transcoder's diagnostic text, or the
/// cancellation error.
pub fn poll_outcome(step: &PollStep, stderr_text: &str) -> (r: Option<
    Result<String, ConversionError>,
>)
    ensures
        step is Finished ==> (r matches Some(res) && (res matches Ok(m) && m@
            == "转换成功"@)),
        step is FailedExit ==> (r matches Some(res) && (res matches Err(e) && e
            is SegmentExecution && e.spec_message() == stderr_text@)),
        step is KillAndCancel ==> (r matches Some(res) && (res matches Err(e) && e is Cancelled)),
        step is Sleep ==> r is None,
{
    match step {
        PollStep::Finished => Some(Ok(String::from_str("转换成功"))),
        PollStep::FailedExit => Some(
            Err(ConversionError::SegmentExecution(String::from_str(stderr_text))),
        ),
        PollStep::KillAndCancel => Some(
            Err(ConversionError::Cancelled(String::from_str("转换任务被取消"))),
        ),
        PollStep::Sleep => None,
    }
}

} // verus!
