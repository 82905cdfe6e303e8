//! The chunk planner: decides whether a media file is split into time
//! segments, how many, and where each segment starts and ends.

use vstd::prelude::*;
use crate::errors::ConversionError;
use crate::numfmt::{dec_str, dec_str_pad3, u64_to_string_pad3};
use crate::paths::{spec_file_stem, file_stem_chars, join_path};
use crate::strings::{spec_safe_pinyin, StringUtils};
use crate::text::chars_to_string;

verus! {

/// The segmenting policy of one batch, immutable once planning starts.
#[derive(Debug, Clone, Copy)]
pub struct VideoChunkConfig {
    /// Target seconds per segment.
    pub chunk_duration: u32,
    /// Seconds of deliberate overlap at segment boundaries, hiding
    /// audio/video desync at the cut points.
    pub overlap_duration: u32,
    /// Hard cap on the number of segments.
    pub max_chunks: usize,
    /// Whether the planner may retune the policy from the input's duration.
    pub smart_chunking: bool,
    /// Lower bound on the seconds per segment.
    pub min_chunk_duration: u32,
    /// Whether the cheaper fixed-quality encode path is used.
    pub fast_mode: bool,
}

impl Default for VideoChunkConfig {
    /// The default policy: one-minute segments with two seconds of
    /// overlap, at most sixteen segments, smart retuning on, segments of
    /// at least half a minute, standard quality.
    fn default() -> (r: Self)
        ensures
            r.chunk_duration == 60,
            r.overlap_duration == 2,
            r.max_chunks == 16,
            r.smart_chunking,
            r.min_chunk_duration == 30,
            !r.fast_mode,
    {
        VideoChunkConfig {
            chunk_duration: 60,
            overlap_duration: 2,
            max_chunks: 16,
            smart_chunking: true,
            min_chunk_duration: 30,
            fast_mode: false,
        }
    }
}

/// What the smart retuning makes of a policy for an input of the given
/// duration: short inputs become one fast-mode segment, longer inputs
/// pick a duration bracket, and the segment length never drops under the
/// configured minimum.
pub open spec fn spec_adjusted(cfg: VideoChunkConfig, duration: u32) -> VideoChunkConfig {
    if !cfg.smart_chunking {
        cfg
    } else {
        let base = if duration <= 120 {
            VideoChunkConfig { chunk_duration: duration, max_chunks: 1, fast_mode: true, ..cfg }
        } else if duration <= 600 {
            VideoChunkConfig { chunk_duration: duration / 3, max_chunks: 3, ..cfg }
        } else if duration <= 1800 {
            VideoChunkConfig { chunk_duration: duration / 6, max_chunks: 6, ..cfg }
        } else {
            VideoChunkConfig {
                chunk_duration: duration / 12,
                max_chunks: if cfg.max_chunks < 12 {
                    cfg.max_chunks
                } else {
                    12
                },
                ..cfg
            }
        };
        VideoChunkConfig {
            chunk_duration: if base.chunk_duration < cfg.min_chunk_duration {
                cfg.min_chunk_duration
            } else {
                base.chunk_duration
            },
            ..base
        }
    }
}

/// The ceiling of `d / n`.
pub open spec fn spec_ceil_div(d: int, n: int) -> int
    recommends
        n > 0,
{
    (d + n - 1) / n
}

/// Bounds on the ceiling division: it stays under the dividend and is
/// positive exactly when the dividend is.
pub proof fn lemma_ceil_div_bounds(d: int, n: int)
    requires
        0 <= d,
        1 <= n,
    ensures
        0 <= spec_ceil_div(d, n),
        spec_ceil_div(d, n) <= d || d == 0,
        d == 0 ==> spec_ceil_div(d, n) == 0,
        d > 0 ==> spec_ceil_div(d, n) >= 1,
        d > n ==> spec_ceil_div(d, n) >= 2,
{
    assert(d <= n * d) by (nonlinear_arith)
        requires
            1 <= n,
            0 <= d,
    ;
    vstd::arithmetic::div_mod::lemma_div_is_ordered(d + n - 1, n * d + n - 1, n);
    vstd::arithmetic::div_mod::lemma_div_multiples_vanish_fancy(d, n - 1, n);
    vstd::arithmetic::div_mod::lemma_div_multiples_vanish_fancy(0, n - 1, n);
    if d > 0 {
        vstd::arithmetic::div_mod::lemma_div_is_ordered(n * 1, d + n - 1, n);
        vstd::arithmetic::div_mod::lemma_div_multiples_vanish(1, n);
    }
    if d > n {
        vstd::arithmetic::div_mod::lemma_div_is_ordered(n * 2, d + n - 1, n);
        vstd::arithmetic::div_mod::lemma_div_multiples_vanish(2, n);
    }
}

/// How many segments the policy makes of an input: one when the input
/// fits a single segment, else the ceiling of duration over segment
/// length, capped by the configured maximum.
pub open spec fn spec_chunk_count(cfg: VideoChunkConfig, duration: u32) -> int {
    if duration <= cfg.chunk_duration {
        1
    } else if cfg.chunk_duration == 0 {
        cfg.max_chunks as int
    } else if spec_ceil_div(duration as int, cfg.chunk_duration as int) < cfg.max_chunks as int {
        spec_ceil_div(duration as int, cfg.chunk_duration as int)
    } else {
        cfg.max_chunks as int
    }
}

impl VideoChunkConfig {
    /// Retunes this policy in place for an input of the given duration.
    pub fn adjust_for_video(&mut self, video_info: &crate::video::VideoInfo)
        ensures
            *final(self) == spec_adjusted(*old(self), video_info.duration),
    {
        if !self.smart_chunking {
            return ;
        }
        let duration = video_info.duration;
        if duration <= 120 {
            self.chunk_duration = duration;
            self.max_chunks = 1;
            self.fast_mode = true;
        } else if duration <= 600 {
            self.chunk_duration = duration / 3;
            self.max_chunks = 3;
        } else if duration <= 1800 {
            self.chunk_duration = duration / 6;
            self.max_chunks = 6;
        } else {
            self.chunk_duration = duration / 12;
            if self.max_chunks > 12 {
                self.max_chunks = 12;
            }
        }
        if self.chunk_duration < self.min_chunk_duration {
            self.chunk_duration = self.min_chunk_duration;
        }
    }

    /// Counts the segments this policy makes of an input.
    pub fn calculate_chunk_count(&self, video_duration: u32) -> (r: usize)
        ensures
            r as int == spec_chunk_count(*self, video_duration),
    {
        if video_duration <= self.chunk_duration {
            return 1;
        }
        if self.chunk_duration == 0 {
            return self.max_chunks;
        }
        let d: u64 = video_duration as u64;
        let cd: u64 = self.chunk_duration as u64;
        let c: u64 = (d + cd - 1) / cd;
        proof {
            lemma_ceil_div_bounds(d as int, cd as int);
        }
        if c < self.max_chunks as u64 {
            c as usize
        } else {
            self.max_chunks
        }
    }
}

/// One planned time-slice of an input file.
#[derive(Debug)]
pub struct VideoChunk {
    /// Position of the segment within its task, counted from zero.
    pub index: usize,
    /// The input file the segment is cut from.
    pub input_path: String,
    /// Seconds into the input where the segment starts.
    pub start_time: u32,
    /// Seconds the segment spans.
    pub duration: u32,
    /// Where the converted segment is written; a temporary file unless
    /// the task has exactly one segment.
    pub output_path: String,
}

/// The segment length the planner actually uses: the ceiling of the
/// duration over the segment count, never under the configured minimum.
pub open spec fn spec_eff_duration(cfg: VideoChunkConfig, duration: u32, n: int) -> int {
    let e = spec_ceil_div(duration as int, n);
    if e < cfg.min_chunk_duration as int {
        cfg.min_chunk_duration as int
    } else {
        e
    }
}

/// Where segment `i` of `n` starts: segment zero at zero, later segments
/// one overlap before their nominal position, clamped into the input.
pub open spec fn spec_chunk_start(cfg: VideoChunkConfig, duration: u32, n: int, i: int) -> int {
    if i == 0 {
        0
    } else {
        let raw = i * spec_eff_duration(cfg, duration, n) - cfg.overlap_duration as int;
        if raw < 0 {
            0
        } else if raw > duration as int {
            duration as int
        } else {
            raw
        }
    }
}

/// How long segment `i` of `n` runs: the last segment absorbs every
/// remainder so coverage ends exactly at the input's end; the others span
/// one effective length plus the overlap.
pub open spec fn spec_chunk_duration(cfg: VideoChunkConfig, duration: u32, n: int, i: int) -> int {
    if i == n - 1 {
        duration as int - spec_chunk_start(cfg, duration, n, i)
    } else {
        let x = spec_eff_duration(cfg, duration, n) + cfg.overlap_duration as int;
        if x > u32::MAX as int {
            u32::MAX as int
        } else {
            x
        }
    }
}

/// The file name of one segment's output: the input's stem made safe,
/// the segment index, and the target container extension.
pub open spec fn spec_chunk_file_name(input: Seq<char>, i: nat) -> Seq<char> {
    spec_safe_pinyin(spec_file_stem(input)) + "_chunk_"@ + dec_str_pad3(i) + ".ogv"@
}

/// A directory and a file name joined with a slash; an empty directory
/// gives the bare name.
pub open spec fn spec_joined(dir: Seq<char>, name: Seq<char>) -> Seq<char> {
    if dir.len() == 0 {
        name
    } else {
        dir + seq!['/'] + name
    }
}

/// The longest output path written anywhere: the common path limit of
/// the target platform.
pub const MAX_OUTPUT_PATH_LEN: usize = 260;

/// Whether one chunk record is exactly what the plan prescribes at
/// position `i`.
pub open spec fn spec_chunk_ok(
    cfg: VideoChunkConfig,
    input: Seq<char>,
    outdir: Seq<char>,
    duration: u32,
    n: int,
    i: int,
    c: VideoChunk,
) -> bool {
    &&& c.index == i
    &&& c.input_path@ == input
    &&& c.start_time as int == spec_chunk_start(cfg, duration, n, i)
    &&& c.duration as int == spec_chunk_duration(cfg, duration, n, i)
    &&& c.output_path@ == crate::paths::spec_ensure_path_length(
        spec_joined(outdir, spec_chunk_file_name(input, i as nat)),
        MAX_OUTPUT_PATH_LEN as int,
    )
}

/// Whether planning must be refused: the input needs splitting but the
/// policy gives a zero segment length or a zero segment cap.
pub open spec fn spec_plan_error(cfg: VideoChunkConfig, duration: u32) -> bool {
    duration > cfg.chunk_duration && (cfg.chunk_duration == 0 || cfg.max_chunks == 0)
}

/// The planner and argument builder around one transcoder binary.
#[derive(Debug, Clone)]
pub struct VideoChunkConverter {
    /// The external transcoder invoked for every segment.
    pub ffmpeg_path: String,
    /// The segmenting policy of this batch.
    pub config: VideoChunkConfig,
}

impl VideoChunkConverter {
    /// Builds a converter around an already-located transcoder binary.
    pub fn new(ffmpeg_path: String, config: VideoChunkConfig) -> (r: Self)
        ensures
            r.ffmpeg_path == ffmpeg_path,
            r.config == config,
    {
        VideoChunkConverter { ffmpeg_path, config }
    }

    /// Plans the segments of one input: retunes the policy for the
    /// input's duration, picks the segment count, and lays the segments
    /// out index-contiguously with the last one ending exactly at the
    /// input's end.  A duration of zero (an unreadable probe) plans as a
    /// single segment rather than failing.
    pub fn create_chunk_plan(&self, input_path: &str, output_dir: &str, duration: u32) -> (r:
        Result<Vec<VideoChunk>, ConversionError>)
        ensures
            ({
                let acfg = spec_adjusted(self.config, duration);
                let n = spec_chunk_count(acfg, duration);
                match r {
                    Ok(chunks) => !spec_plan_error(acfg, duration) && chunks@.len() == n && forall|
                        i: int,
                    |
                        0 <= i < n ==> spec_chunk_ok(
                            acfg,
                            input_path@,
                            output_dir@,
                            duration,
                            n,
                            i,
                            #[trigger] chunks@[i],
                        ),
                    Err(e) => spec_plan_error(acfg, duration) && e is Plan,
                }
            }),
    {
        let mut acfg = self.config.clone();
        let info = crate::video::VideoInfo { duration, resolution: (0, 0) };
        acfg.adjust_for_video(&info);
        if duration > acfg.chunk_duration && (acfg.chunk_duration == 0 || acfg.max_chunks == 0) {
            let mut m = String::new();
            m.append("分片配置无效: 分片时长或分片数量上限为零");
            return Err(ConversionError::Plan(m));
        }
        let n = acfg.calculate_chunk_count(duration);
        proof {
            let a = spec_adjusted(self.config, duration);
            if duration > a.chunk_duration {
                assert(a.chunk_duration >= 1 && a.max_chunks >= 1);
                lemma_ceil_div_bounds(duration as int, a.chunk_duration as int);
            }
            assert(n >= 1);
            assert(n as u64 <= u32::MAX as u64);
        }
        let eff: u64 = self.effective_duration(&acfg, duration, n);
        let mut chunks: Vec<VideoChunk> = Vec::new();
        let mut i: usize = 0;
        let ghost gn = spec_chunk_count(spec_adjusted(self.config, duration), duration);
        while i < n
            invariant
                n as int == gn,
                n >= 1,
                n as u64 <= u32::MAX as u64,
                acfg == spec_adjusted(self.config, duration),
                eff as int == spec_eff_duration(acfg, duration, n as int),
                eff <= u32::MAX as u64,
                chunks@.len() == i as int,
                i <= n,
                forall|k: int|
                    0 <= k < i as int ==> spec_chunk_ok(
                        spec_adjusted(self.config, duration),
                        input_path@,
                        output_dir@,
                        duration,
                        gn,
                        k,
                        #[trigger] chunks@[k],
                    ),
            decreases n - i,
    {
            let start: u32 = Self::chunk_start(&acfg, duration, n, i, eff);
            let dur: u32 = if i == n - 1 {
                duration - start
            } else {
                let x: u64 = eff + acfg.overlap_duration as u64;
                if x > u32::MAX as u64 {
                    u32::MAX
                } else {
                    x as u32
                }
            };
            let output_path = Self::chunk_output_path(input_path, output_dir, i);
            let chunk = VideoChunk {
                index: i,
                input_path: input_path_to_string(input_path),
                start_time: start,
                duration: dur,
                output_path,
            };
            chunks.push(chunk);
            i = i + 1;
        }
        Ok(chunks)
    }

    /// The effective segment length for this plan.
    fn effective_duration(&self, acfg: &VideoChunkConfig, duration: u32, n: usize) -> (r: u64)
        requires
            n >= 1,
            n as u64 <= u32::MAX as u64,
        ensures
            r as int == spec_eff_duration(*acfg, duration, n as int),
            r <= u32::MAX as u64,
    {
        let d: u64 = duration as u64;
        let nn: u64 = n as u64;
        let e: u64 = (d + nn - 1) / nn;
        proof {
            lemma_ceil_div_bounds(d as int, nn as int);
        }
        if e < acfg.min_chunk_duration as u64 {
            acfg.min_chunk_duration as u64
        } else {
            e
        }
    }

    /// Where segment `i` starts, clamped into the input.
    fn chunk_start(acfg: &VideoChunkConfig, duration: u32, n: usize, i: usize, eff: u64) -> (r:
        u32)
        requires
            i < n,
            n as u64 <= u32::MAX as u64,
            eff as int == spec_eff_duration(*acfg, duration, n as int),
            eff <= u32::MAX as u64,
        ensures
            r as int == spec_chunk_start(*acfg, duration, n as int, i as int),
    {
        if i == 0 {
            return 0;
        }
        proof {
            assert(i as u64 * eff <= u64::MAX) by (nonlinear_arith)
                requires
                    i as u64 <= u32::MAX as u64,
                    eff <= u32::MAX as u64,
            ;
        }
        let prod: u64 = i as u64 * eff;
        let ov: u64 = acfg.overlap_duration as u64;
        let raw: u64 = if prod >= ov {
            prod - ov
        } else {
            0
        };
        let clamped: u64 = if raw > duration as u64 {
            duration as u64
        } else {
            raw
        };
        clamped as u32
    }

    /// The output path of segment `i`: the safe stem of the input, the
    /// segment index and the target extension, joined onto the output
    /// directory.
    fn chunk_output_path(input_path: &str, output_dir: &str, i: usize) -> (r: String)
        ensures
            r@ == crate::paths::spec_ensure_path_length(
                spec_joined(output_dir@, spec_chunk_file_name(input_path@, i as nat)),
                MAX_OUTPUT_PATH_LEN as int,
            ),
    {
        let stem = file_stem_chars(input_path);
        let stem_s = chars_to_string(&stem);
        let safe = StringUtils::to_ascii_safe_pinyin(stem_s.as_str());
        let mut name = safe;
        name.append("_chunk_");
        let idx = u64_to_string_pad3(i as u64);
        name.append(idx.as_str());
        name.append(".ogv");
        proof {
            assert(name@ =~= spec_chunk_file_name(input_path@, i as nat));
        }
        let joined = join_path(output_dir, name.as_str());
        StringUtils::ensure_path_length(joined.as_str(), MAX_OUTPUT_PATH_LEN)
    }
}

impl VideoChunkConverter {
    /// Parses an `HH:MM:SS[.mmm]` duration stamp into whole seconds.
    pub fn parse_duration(&self, s: &str) -> (r: u32)
        ensures
            r as int == crate::probe::spec_parse_duration(s@),
    {
        crate::probe::parse_duration_str(s)
    }

    /// Pulls the `WIDTHxHEIGHT` resolution out of a probe stream line.
    pub fn extract_resolution(&self, line: &str) -> (r: Option<(u32, u32)>)
        ensures
            r == crate::probe::spec_extract_resolution(line@),
    {
        crate::probe::extract_resolution_str(line)
    }
}

/// Copies a string slice into an owned string.
fn input_path_to_string(s: &str) -> (r: String)
    ensures
        r@ == s@,
{
    let mut r = String::new();
    r.append(s);
    proof {
        assert(r@ =~= s@);
    }
    r
}


/// An input of at most two minutes plans as exactly one segment that
/// covers the whole input, and the retuned policy marks fast mode.
pub proof fn lemma_short_input_single_fast_segment(cfg: VideoChunkConfig, duration: u32)
    requires
        cfg.smart_chunking,
        duration <= 120,
    ensures
        ({
            let a = spec_adjusted(cfg, duration);
            &&& spec_chunk_count(a, duration) == 1
            &&& a.fast_mode
            &&& spec_chunk_start(a, duration, 1, 0) == 0
            &&& spec_chunk_duration(a, duration, 1, 0) == duration as int
        }),
{
}

/// The retuned segment counts by duration bracket: three segments up to
/// ten minutes, six up to thirty, and the capped twelve beyond that.
pub proof fn lemma_bracket_counts(cfg: VideoChunkConfig, duration: u32)
    requires
        cfg.smart_chunking,
        cfg.min_chunk_duration <= 40,
        cfg.max_chunks >= 1,
    ensures
        120 < duration <= 600 ==> spec_chunk_count(spec_adjusted(cfg, duration), duration) == 3,
        600 < duration <= 1800 ==> spec_chunk_count(spec_adjusted(cfg, duration), duration) == 6,
        1800 < duration ==> spec_chunk_count(spec_adjusted(cfg, duration), duration) == (
        if cfg.max_chunks < 12 {
            cfg.max_chunks as int
        } else {
            12
        }),
{
    let d = duration as int;
    if 120 < duration <= 600 {
        let q = d / 3;
        vstd::arithmetic::div_mod::lemma_fundamental_div_mod(d, 3);
        vstd::arithmetic::div_mod::lemma_div_is_ordered(121, d, 3);
        assert(q >= 40);
        let a = spec_adjusted(cfg, duration);
        assert(a.chunk_duration == q);
        assert(a.max_chunks == 3);
        assert(d > q);
        vstd::arithmetic::div_mod::lemma_div_is_ordered(q * 3, d + q - 1, q);
        vstd::arithmetic::div_mod::lemma_div_multiples_vanish(3, q);
        assert(spec_ceil_div(d, q) >= 3);
    }
    if 600 < duration <= 1800 {
        let q = d / 6;
        vstd::arithmetic::div_mod::lemma_fundamental_div_mod(d, 6);
        vstd::arithmetic::div_mod::lemma_div_is_ordered(601, d, 6);
        assert(q >= 100);
        let a = spec_adjusted(cfg, duration);
        assert(a.chunk_duration == q);
        assert(a.max_chunks == 6);
        assert(d > q);
        vstd::arithmetic::div_mod::lemma_div_is_ordered(q * 6, d + q - 1, q);
        vstd::arithmetic::div_mod::lemma_div_multiples_vanish(6, q);
        assert(spec_ceil_div(d, q) >= 6);
    }
    if 1800 < duration {
        let q = d / 12;
        vstd::arithmetic::div_mod::lemma_fundamental_div_mod(d, 12);
        vstd::arithmetic::div_mod::lemma_div_is_ordered(1801, d, 12);
        assert(q >= 150);
        let a = spec_adjusted(cfg, duration);
        assert(a.chunk_duration == q);
        assert(a.max_chunks as int == if cfg.max_chunks < 12 { cfg.max_chunks as int } else { 12 });
        assert(d > q);
        vstd::arithmetic::div_mod::lemma_div_is_ordered(q * 12, d + q - 1, q);
        vstd::arithmetic::div_mod::lemma_div_multiples_vanish(12, q);
        assert(spec_ceil_div(d, q) >= 12);
    }
}

/// Every plan covers the input exactly: the first segment starts at
/// zero, consecutive segments leave no gap, every start stays inside the
/// input, and the last segment ends exactly at the input's end.
pub proof fn lemma_plan_coverage(cfg: VideoChunkConfig, duration: u32, n: int)
    requires
        n >= 1,
    ensures
        spec_chunk_start(cfg, duration, n, 0) == 0,
        spec_chunk_start(cfg, duration, n, n - 1) + spec_chunk_duration(cfg, duration, n, n - 1)
            == duration as int,
        forall|i: int|
            0 <= i < n ==> 0 <= #[trigger] spec_chunk_start(cfg, duration, n, i) <= duration as int,
        forall|i: int| 0 <= i < n ==> 0 <= #[trigger] spec_chunk_duration(cfg, duration, n, i),
        forall|i: int|
            0 <= i < n - 1 ==> #[trigger] spec_chunk_start(cfg, duration, n, i + 1)
                <= spec_chunk_start(cfg, duration, n, i) + spec_chunk_duration(
                cfg,
                duration,
                n,
                i,
            ),
{
    let e = spec_eff_duration(cfg, duration, n);
    let ov = cfg.overlap_duration as int;
    let d = duration as int;
    lemma_ceil_div_bounds(d, n);
    assert(e >= 0);
    assert forall|i: int| 0 <= i < n - 1 implies #[trigger] spec_chunk_start(cfg, duration, n, i + 1)
        <= spec_chunk_start(cfg, duration, n, i) + spec_chunk_duration(cfg, duration, n, i) by {
        assert((i + 1) * e == i * e + e) by (nonlinear_arith);
        assert(i * e >= 0) by (nonlinear_arith)
            requires
                i >= 0,
                e >= 0,
        ;
        let si = spec_chunk_start(cfg, duration, n, i);
        let sd = spec_chunk_duration(cfg, duration, n, i);
        let sn = spec_chunk_start(cfg, duration, n, i + 1);
        assert(0 <= si <= d);
        assert(0 <= sn <= d);
        assert(sd >= 0);
        if e + ov > u32::MAX as int {
            assert(sd == u32::MAX as int);
            assert(sn <= d <= u32::MAX as int);
        } else {
            assert(sd == e + ov);
            let rawn = (i + 1) * e - ov;
            if i == 0 {
                assert(si == 0);
                if rawn <= d {
                    assert(sn <= e + ov);
                } else {
                    assert(sn == d);
                    assert(d < rawn == e - ov <= e + ov);
                }
            } else {
                let rawi = i * e - ov;
                if rawi < 0 {
                    assert(si == 0);
                    assert(rawn == rawi + e < e);
                    if rawn > d {
                        assert(sn == d && d < rawn < e);
                    } else {
                        assert(sn <= rawn || sn == 0);
                    }
                } else if rawi > d {
                    assert(si == d);
                    assert(rawn >= rawi > d);
                    assert(sn == d);
                } else {
                    assert(si == rawi);
                    assert(rawn == si + e);
                    if rawn > d {
                        assert(sn == d && d < rawn <= si + sd);
                    } else {
                        assert(sn <= rawn || sn == 0);
                    }
                }
            }
        }
    }
}

/// The sum of the first `k` planned segment spans.
pub open spec fn spec_plan_span_sum(cfg: VideoChunkConfig, duration: u32, n: int, k: int) -> int
    decreases k,
{
    if k <= 0 {
        0
    } else {
        spec_plan_span_sum(cfg, duration, n, k - 1) + spec_chunk_duration(cfg, duration, n, k - 1)
    }
}

proof fn lemma_span_sum_interior(cfg: VideoChunkConfig, duration: u32, n: int, k: int)
    requires
        n >= 2,
        0 <= k <= n - 1,
        spec_eff_duration(cfg, duration, n) + cfg.overlap_duration as int <= u32::MAX as int,
    ensures
        spec_plan_span_sum(cfg, duration, n, k) == k * (spec_eff_duration(cfg, duration, n)
            + cfg.overlap_duration as int),
    decreases k,
{
    let x = spec_eff_duration(cfg, duration, n) + cfg.overlap_duration as int;
    if k == 0 {
        assert(0 * x == 0) by (nonlinear_arith);
    } else {
        lemma_span_sum_interior(cfg, duration, n, k - 1);
        assert(spec_chunk_duration(cfg, duration, n, k - 1) == x);
        assert(k * x == (k - 1) * x + x) by (nonlinear_arith);
    }
}

/// When no clamping or saturation occurs, the planned spans overcount
/// the input by exactly one overlap per segment: the merged output may
/// run that much longer than the input, never shorter.
pub proof fn lemma_plan_overlap_overcount(cfg: VideoChunkConfig, duration: u32, n: int)
    requires
        n >= 2,
        spec_eff_duration(cfg, duration, n) >= cfg.overlap_duration as int,
        (n - 1) * spec_eff_duration(cfg, duration, n) - cfg.overlap_duration as int
            <= duration as int,
        spec_eff_duration(cfg, duration, n) + cfg.overlap_duration as int <= u32::MAX as int,
    ensures
        spec_plan_span_sum(cfg, duration, n, n) == duration as int + n * (
        cfg.overlap_duration as int),
{
    let e = spec_eff_duration(cfg, duration, n);
    let ov = cfg.overlap_duration as int;
    let d = duration as int;
    lemma_span_sum_interior(cfg, duration, n, n - 1);
    assert((n - 1) * e >= 1 * e) by (nonlinear_arith)
        requires
            n >= 2,
            e >= 0,
    ;
    assert(spec_chunk_start(cfg, duration, n, n - 1) == (n - 1) * e - ov);
    assert(spec_chunk_duration(cfg, duration, n, n - 1) == d - ((n - 1) * e - ov));
    assert((n - 1) * (e + ov) == (n - 1) * e + (n - 1) * ov) by (nonlinear_arith);
    assert(n * ov == (n - 1) * ov + ov) by (nonlinear_arith);
}


impl Clone for VideoChunk {
    /// An exact copy of the segment record.
    fn clone(&self) -> (r: Self)
        ensures
            r == *self,
    {
        VideoChunk {
            index: self.index,
            input_path: self.input_path.clone(),
            start_time: self.start_time,
            duration: self.duration,
            output_path: self.output_path.clone(),
        }
    }
}

/// What one task's conversion came to: where the output lies, the
/// segments that were attempted, and the failure text if any part
/// failed.
#[derive(Debug)]
pub struct VideoChunkConversionResult {
    /// The task's final output file.
    pub output_path: String,
    /// The segments the task was planned into.
    pub chunks: Vec<VideoChunk>,
    /// Whether every segment and the merge succeeded.
    pub success: bool,
    /// The aggregated failure text, when the task failed.
    pub error: Option<String>,
}

impl Clone for VideoChunkConversionResult {
    /// An exact copy of the result record.
    fn clone(&self) -> (r: Self)
        ensures
            r.output_path == self.output_path,
            r.chunks@ == self.chunks@,
            r.success == self.success,
            r.error == self.error,
    {
        let mut chunks: Vec<VideoChunk> = Vec::new();
        let mut i: usize = 0;
        while i < self.chunks.len()
            invariant
                i <= self.chunks@.len(),
                chunks@ == self.chunks@.take(i as int),
            decreases self.chunks@.len() - i,
        {
            chunks.push(self.chunks[i].clone());
            i = i + 1;
            proof {
                assert(chunks@ =~= self.chunks@.take(i as int));
            }
        }
        proof {
            assert(self.chunks@.take(self.chunks@.len() as int) =~= self.chunks@);
        }
        let error: Option<String> = match &self.error {
            Some(e) => Some(e.clone()),
            None => None,
        };
        VideoChunkConversionResult {
            output_path: self.output_path.clone(),
            chunks,
            success: self.success,
            error,
        }
    }
}

/// The success line of a finished task: the output path, and the
/// segment count when the task was split.
pub open spec fn spec_success_message(r: VideoChunkConversionResult) -> Seq<char> {
    if r.chunks@.len() == 1 {
        "视频转换成功: "@ + r.output_path@
    } else {
        "视频分片转换成功: "@ + r.output_path@ + " ("@ + dec_str(r.chunks@.len() as nat)
            + "个分片)"@
    }
}

impl VideoChunkConversionResult {
    /// The success line shown for a finished task.
    pub fn get_success_message(&self) -> (r: String)
        ensures
            r@ == spec_success_message(*self),
    {
        let mut s = String::new();
        if self.chunks.len() == 1 {
            s.append("视频转换成功: ");
            s.append(self.output_path.as_str());
        } else {
            s.append("视频分片转换成功: ");
            s.append(self.output_path.as_str());
            s.append(" (");
            let count = crate::numfmt::u64_to_string(self.chunks.len() as u64);
            s.append(count.as_str());
            s.append("个分片)");
        }
        proof {
            assert(s@ =~= spec_success_message(*self));
        }
        s
    }

    /// The failure text shown for a failed task, or a placeholder when
    /// none was recorded.
    pub fn get_error_message(&self) -> (r: String)
        ensures
            match self.error {
                Some(e) => r@ == e@,
                None => r@ == "未知错误"@,
            },
    {
        match &self.error {
            Some(e) => e.clone(),
            None => String::from_str("未知错误"),
        }
    }
}


/// The coverage law over an actual plan: the segments are
/// index-contiguous from zero, the first starts at zero, consecutive
/// segments leave no gap, and the last ends exactly at the input's end.
pub proof fn lemma_planned_chunks_cover(
    cfg: VideoChunkConfig,
    input: Seq<char>,
    outdir: Seq<char>,
    duration: u32,
    n: int,
    chunks: Seq<VideoChunk>,
)
    requires
        n >= 1,
        chunks.len() == n,
        forall|i: int|
            0 <= i < n ==> spec_chunk_ok(cfg, input, outdir, duration, n, i, #[trigger] chunks[i]),
    ensures
        forall|i: int| 0 <= i < n ==> (#[trigger] chunks[i]).index == i,
        chunks[0].start_time == 0,
        chunks[n - 1].start_time + chunks[n - 1].duration == duration,
        forall|i: int|
            0 <= i < n - 1 ==> (#[trigger] chunks[i + 1]).start_time <= chunks[i].start_time
                + chunks[i].duration,
{
    lemma_plan_coverage(cfg, duration, n);
}

} // verus!
