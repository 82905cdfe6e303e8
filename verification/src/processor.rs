//! The batch engine: how per-segment outcomes roll up into task results,
//! batch statistics and the ordered stream of progress events.  The
//! surrounding application runs the worker threads and the transcoder;
//! every decision — what counts as success, what is aggregated, what is
//! emitted, when dispatch stops — is made and proved here.

use vstd::prelude::*;
use crate::chunking::{VideoChunk, VideoChunkConfig, VideoChunkConversionResult};
use crate::errors::ConversionError;
use crate::numfmt::dec_str;
use crate::resources::task_pool_size;

verus! {

/// One input file's conversion job: its planned segments and the
/// qualities the transcoder runs at.
#[derive(Debug)]
pub struct ChunkConversionTask {
    /// The task's stable index within its batch.
    pub task_id: usize,
    /// The input file.
    pub input_path: String,
    /// The planned segments, index-contiguous from zero.
    pub chunks: Vec<VideoChunk>,
    /// The video quality knob passed through to the transcoder.
    pub video_quality: u8,
    /// The audio quality knob passed through to the transcoder.
    pub audio_quality: u8,
    /// Where the merged output goes.
    pub final_output_path: String,
}

/// One finished task's identity and outcome.
#[derive(Debug)]
pub struct ChunkConversionTaskResult {
    /// The task's index within its batch.
    pub task_id: usize,
    /// What the conversion came to.
    pub result: VideoChunkConversionResult,
}

/// One lifecycle event of a running batch, in the order the engine
/// emits them.
#[derive(Debug, Clone)]
pub enum ChunkProgressUpdate {
    /// A worker picked the task up.
    TaskStarted { task_id: usize, input_path: String, chunk_count: usize },
    /// A segment's conversion began.
    ChunkStarted { task_id: usize, chunk_index: usize, chunk_path: String },
    /// A segment's conversion ended, successfully or not.
    ChunkCompleted { task_id: usize, chunk_index: usize, success: bool, error: Option<String> },
    /// The whole task ended.
    TaskCompleted { task_id: usize, result: ChunkConversionTaskResult },
    /// The batch ended; always the last event.
    AllTasksCompleted {
        success_count: usize,
        error_count: usize,
        total_duration_ms: u64,
        results: Vec<ChunkConversionTaskResult>,
    },
}

/// The batch counters, reset at batch start and read once at the end.
#[derive(Debug, Clone, Copy)]
pub struct ChunkConversionStats {
    /// Tasks the batch holds.
    pub total_tasks: usize,
    /// Tasks that ran to an outcome.
    pub completed_tasks: usize,
    /// Tasks whose every segment and merge succeeded.
    pub successful_tasks: usize,
    /// Tasks that failed in any part.
    pub failed_tasks: usize,
    /// Segments the batch holds.
    pub total_chunks: usize,
    /// Segments that ran to an outcome.
    pub completed_chunks: usize,
    /// Segments the transcoder finished successfully.
    pub successful_chunks: usize,
    /// Segments the transcoder failed.
    pub failed_chunks: usize,
    /// When the batch started, in milliseconds, once it has.
    pub start_time_ms: Option<u64>,
}

impl ChunkConversionStats {
    /// The counters are consistent: outcomes partition into successes
    /// and failures and never outnumber the whole.
    pub open spec fn wf(&self) -> bool {
        &&& self.completed_tasks == self.successful_tasks + self.failed_tasks
        &&& self.completed_tasks <= self.total_tasks
        &&& self.completed_chunks == self.successful_chunks + self.failed_chunks
        &&& self.completed_chunks <= self.total_chunks
    }

    /// Zeroed counters with no start time.
    pub fn new() -> (r: Self)
        ensures
            r.wf(),
            r.total_tasks == 0,
            r.completed_tasks == 0,
            r.successful_tasks == 0,
            r.failed_tasks == 0,
            r.total_chunks == 0,
            r.completed_chunks == 0,
            r.successful_chunks == 0,
            r.failed_chunks == 0,
            r.start_time_ms is None,
    {
        ChunkConversionStats {
            total_tasks: 0,
            completed_tasks: 0,
            successful_tasks: 0,
            failed_tasks: 0,
            total_chunks: 0,
            completed_chunks: 0,
            successful_chunks: 0,
            failed_chunks: 0,
            start_time_ms: None,
        }
    }
}

/// Whether every segment outcome is a success.
pub open spec fn spec_all_ok(rs: Seq<Result<(), ConversionError>>) -> bool {
    forall|i: int| 0 <= i < rs.len() ==> rs[i] is Ok
}

/// How many of the first `k` segment outcomes succeeded.
pub open spec fn spec_ok_upto(rs: Seq<Result<(), ConversionError>>, k: int) -> int
    decreases k,
{
    if k <= 0 {
        0
    } else {
        spec_ok_upto(rs, k - 1) + if rs[k - 1] is Ok {
            1int
        } else {
            0int
        }
    }
}

/// The successes among the outcomes never outnumber them.
pub proof fn lemma_ok_upto_bounds(rs: Seq<Result<(), ConversionError>>, k: int)
    requires
        0 <= k <= rs.len(),
    ensures
        0 <= spec_ok_upto(rs, k) <= k,
    decreases k,
{
    if k > 0 {
        lemma_ok_upto_bounds(rs, k - 1);
    }
}

/// The failure note of one segment: its index and the error's text.
pub open spec fn spec_failure_note(i: int, e: Seq<char>) -> Seq<char> {
    "分片 "@ + dec_str(i as nat) + " 转换失败: "@ + e
}

/// The failure notes of the first `k` outcomes, one per failed segment,
/// in index order.
pub open spec fn spec_failure_notes(rs: Seq<Result<(), ConversionError>>, k: int) -> Seq<
    Seq<char>,
>
    decreases k,
{
    if k <= 0 {
        Seq::<Seq<char>>::empty()
    } else {
        spec_failure_notes(rs, k - 1) + match rs[k - 1] {
            Ok(_) => Seq::<Seq<char>>::empty(),
            Err(e) => seq![spec_failure_note(k - 1, e.spec_message())],
        }
    }
}

/// Texts joined with a separator.
pub open spec fn spec_join(parts: Seq<Seq<char>>, sep: Seq<char>) -> Seq<char>
    decreases parts.len(),
{
    if parts.len() == 0 {
        Seq::<char>::empty()
    } else if parts.len() == 1 {
        parts[0]
    } else {
        spec_join(parts.take(parts.len() - 1), sep) + sep + parts[parts.len() - 1]
    }
}

/// The aggregated failure text of one task's outcomes: the failure
/// notes joined with semicolons.
pub open spec fn spec_failure_summary(rs: Seq<Result<(), ConversionError>>) -> Seq<char> {
    spec_join(spec_failure_notes(rs, rs.len() as int), "; "@)
}

/// Counts the successes and failures among one task's segment outcomes.
pub fn count_outcomes(rs: &Vec<Result<(), ConversionError>>) -> (r: (usize, usize))
    ensures
        r.0 as int == spec_ok_upto(rs@, rs@.len() as int),
        r.0 + r.1 == rs@.len(),
        (r.1 == 0) == spec_all_ok(rs@),
{
    let mut ok: usize = 0;
    let mut failed: usize = 0;
    let mut i: usize = 0;
    while i < rs.len()
        invariant
            i <= rs@.len(),
            ok as int == spec_ok_upto(rs@, i as int),
            ok + failed == i,
            (failed == 0) == (forall|k: int| 0 <= k < i ==> rs@[k] is Ok),
        decreases rs@.len() - i,
    {
        proof {
            lemma_ok_upto_bounds(rs@, i as int);
        }
        match &rs[i] {
            Ok(_) => {
                ok = ok + 1;
            },
            Err(_) => {
                failed = failed + 1;
            },
        }
        i = i + 1;
    }
    (ok, failed)
}

/// Builds the failure note of one segment.
fn failure_note(i: usize, e: &ConversionError) -> (r: String)
    ensures
        r@ == spec_failure_note(i as int, e.spec_message()),
{
    let mut s = String::new();
    s.append("分片 ");
    let idx = crate::numfmt::u64_to_string(i as u64);
    s.append(idx.as_str());
    s.append(" 转换失败: ");
    let msg = e.message();
    s.append(msg.as_str());
    proof {
        assert(s@ =~= spec_failure_note(i as int, e.spec_message()));
    }
    s
}

/// The aggregated failure text of one task, or nothing when every
/// segment succeeded: the failed segments' notes, each naming its
/// segment index, joined with semicolons.
pub fn chunk_failure_summary(rs: &Vec<Result<(), ConversionError>>) -> (r: Option<String>)
    ensures
        match r {
            None => spec_all_ok(rs@),
            Some(m) => !spec_all_ok(rs@) && m@ == spec_failure_summary(rs@),
        },
{
    let mut joined = String::new();
    let mut any = false;
    let mut i: usize = 0;
    while i < rs.len()
        invariant
            i <= rs@.len(),
            any == !(forall|k: int| 0 <= k < i ==> rs@[k] is Ok),
            joined@ == spec_join(spec_failure_notes(rs@, i as int), "; "@),
            any == (spec_failure_notes(rs@, i as int).len() > 0),
        decreases rs@.len() - i,
    {
        let ghost notes = spec_failure_notes(rs@, i as int);
        match &rs[i] {
            Ok(_) => {
                proof {
                    assert(spec_failure_notes(rs@, i + 1 as int) =~= notes);
                }
            },
            Err(e) => {
                let note = failure_note(i, e);
                if any {
                    joined.append("; ");
                }
                joined.append(note.as_str());
                any = true;
                proof {
                    let notes2 = spec_failure_notes(rs@, i + 1 as int);
                    assert(notes2 =~= notes.push(note@));
                    if notes.len() == 0 {
                        assert(notes2.len() == 1);
                        assert(spec_join(notes2, "; "@) == notes2[0]);
                        assert(joined@ =~= spec_join(notes2, "; "@));
                    } else {
                        assert(notes2.take(notes2.len() - 1) =~= notes);
                        assert(spec_join(notes2, "; "@) == spec_join(notes, "; "@) + "; "@
                            + note@);
                        assert(joined@ =~= spec_join(notes2, "; "@));
                    }
                }
            },
        }
        i = i + 1;
    }
    if any {
        Some(joined)
    } else {
        None
    }
}

/// Whether one task counts as successful: every segment succeeded and
/// the merge (or single-segment copy) succeeded.
pub open spec fn spec_task_success(
    outs: Seq<Result<(), ConversionError>>,
    merge: Result<(), ConversionError>,
) -> bool {
    spec_all_ok(outs) && merge is Ok
}

/// The failure text of a failed task: the segment summary when any
/// segment failed, else the merge failure's text.
pub open spec fn spec_task_error_text(
    outs: Seq<Result<(), ConversionError>>,
    merge: Result<(), ConversionError>,
) -> Seq<char> {
    if !spec_all_ok(outs) {
        spec_failure_summary(outs)
    } else {
        match merge {
            Ok(_) => Seq::<char>::empty(),
            Err(e) => "合并分片失败: "@ + e.spec_message(),
        }
    }
}

/// Whether a task result records exactly the given task and outcomes.
pub open spec fn spec_result_ok(
    res: ChunkConversionTaskResult,
    task: ChunkConversionTask,
    outs: Seq<Result<(), ConversionError>>,
    merge: Result<(), ConversionError>,
) -> bool {
    &&& res.task_id == task.task_id
    &&& res.result.output_path@ == task.final_output_path@
    &&& res.result.chunks@ == task.chunks@
    &&& res.result.success == spec_task_success(outs, merge)
    &&& if spec_task_success(outs, merge) {
        res.result.error is None
    } else {
        res.result.error matches Some(m) && m@ == spec_task_error_text(outs, merge)
    }
}

/// Decides one task's outcome from its segment outcomes and its merge
/// outcome: success only when everything succeeded; otherwise the
/// aggregated failure text, naming each failed segment, or the merge
/// failure.
pub fn process_task_outcome(
    task: &ChunkConversionTask,
    chunk_outcomes: &Vec<Result<(), ConversionError>>,
    merge_outcome: &Result<(), ConversionError>,
) -> (res: ChunkConversionTaskResult)
    ensures
        spec_result_ok(res, *task, chunk_outcomes@, *merge_outcome),
{
    let summary = chunk_failure_summary(chunk_outcomes);
    let (success, error): (bool, Option<String>) = match summary {
        Some(m) => (false, Some(m)),
        None => {
            match merge_outcome {
                Ok(_) => (true, None),
                Err(e) => {
                    let mut s = String::new();
                    s.append("合并分片失败: ");
                    let msg = e.message();
                    s.append(msg.as_str());
                    proof {
                        assert(s@ =~= "合并分片失败: "@ + e.spec_message());
                    }
                    (false, Some(s))
                },
            }
        },
    };
    let mut chunks: Vec<VideoChunk> = Vec::new();
    let mut i: usize = 0;
    while i < task.chunks.len()
        invariant
            i <= task.chunks@.len(),
            chunks@ == task.chunks@.take(i as int),
        decreases task.chunks@.len() - i,
    {
        chunks.push(task.chunks[i].clone());
        i = i + 1;
        proof {
            assert(chunks@ =~= task.chunks@.take(i as int));
        }
    }
    proof {
        assert(task.chunks@.take(task.chunks@.len() as int) =~= task.chunks@);
    }
    ChunkConversionTaskResult {
        task_id: task.task_id,
        result: VideoChunkConversionResult {
            output_path: task.final_output_path.clone(),
            chunks,
            success,
            error,
        },
    }
}


/// Whether an event is the start marker of the given task.
pub open spec fn spec_is_task_started(e: ChunkProgressUpdate, t: ChunkConversionTask) -> bool {
    e matches ChunkProgressUpdate::TaskStarted { task_id, input_path, chunk_count } && task_id
        == t.task_id && input_path@ == t.input_path@ && chunk_count == t.chunks@.len()
}

/// Whether an event is the start marker of segment `i` of task `tid`.
pub open spec fn spec_is_chunk_started(
    e: ChunkProgressUpdate,
    tid: int,
    i: int,
    path: Seq<char>,
) -> bool {
    e matches ChunkProgressUpdate::ChunkStarted { task_id, chunk_index, chunk_path } && task_id
        == tid && chunk_index == i && chunk_path@ == path
}

/// Whether an event is the completion marker of segment `i` of task
/// `tid`, carrying exactly the segment's outcome.
pub open spec fn spec_is_chunk_completed(
    e: ChunkProgressUpdate,
    tid: int,
    i: int,
    out: Result<(), ConversionError>,
) -> bool {
    e matches ChunkProgressUpdate::ChunkCompleted { task_id, chunk_index, success, error } && (
    task_id == tid && chunk_index == i && success == (out is Ok) && (match out {
        Ok(_) => error is None,
        Err(err) => error matches Some(m) && m@ == err.spec_message(),
    }))
}

/// Whether an event is the completion marker of the given task, carrying
/// exactly the result the outcomes prescribe.
pub open spec fn spec_is_task_completed(
    e: ChunkProgressUpdate,
    t: ChunkConversionTask,
    outs: Seq<Result<(), ConversionError>>,
    merge: Result<(), ConversionError>,
) -> bool {
    e matches ChunkProgressUpdate::TaskCompleted { task_id, result } && (task_id == t.task_id
        && spec_result_ok(result, t, outs, merge))
}

/// How many events one task's lifecycle takes: its start, one pair per
/// segment, and its completion.
pub open spec fn spec_block_len(t: ChunkConversionTask) -> int {
    2 + 2 * (t.chunks@.len() as int)
}

/// Whether an event slice is exactly one task's lifecycle: the start
/// marker, the ordered start/completion pair of every segment, and the
/// task's completion last.  Within one task, a segment's start always
/// precedes its completion, and the task's completion follows all of its
/// segment events.
pub open spec fn spec_task_block_ok(
    evs: Seq<ChunkProgressUpdate>,
    t: ChunkConversionTask,
    outs: Seq<Result<(), ConversionError>>,
    merge: Result<(), ConversionError>,
) -> bool {
    &&& evs.len() == spec_block_len(t)
    &&& spec_is_task_started(evs[0], t)
    &&& forall|i: int|
        0 <= i < t.chunks@.len() ==> spec_is_chunk_started(
            evs[1 + 2 * i],
            t.task_id as int,
            i,
            (#[trigger] t.chunks@[i]).output_path@,
        )
    &&& forall|i: int|
        0 <= i < t.chunks@.len() ==> spec_is_chunk_completed(
            evs[2 + 2 * i],
            t.task_id as int,
            i,
            #[trigger] outs[i],
        )
    &&& spec_is_task_completed(evs[evs.len() - 1], t, outs, merge)
}

impl Clone for ChunkConversionTaskResult {
    /// An exact copy of the record, field by field.
    fn clone(&self) -> (r: Self)
        ensures
            r.task_id == self.task_id,
            r.result.output_path == self.result.output_path,
            r.result.chunks@ == self.result.chunks@,
            r.result.success == self.result.success,
            r.result.error == self.result.error,
    {
        ChunkConversionTaskResult { task_id: self.task_id, result: self.result.clone() }
    }
}

/// Emits one task's lifecycle events and decides its result, from the
/// segment outcomes and the merge outcome the workers observed.
pub fn emit_task_events(
    task: &ChunkConversionTask,
    outs: &Vec<Result<(), ConversionError>>,
    merge: &Result<(), ConversionError>,
) -> (r: (Vec<ChunkProgressUpdate>, ChunkConversionTaskResult))
    requires
        outs@.len() == task.chunks@.len(),
    ensures
        spec_task_block_ok(r.0@, *task, outs@, *merge),
        spec_result_ok(r.1, *task, outs@, *merge),
{
    let mut evs: Vec<ChunkProgressUpdate> = Vec::new();
    evs.push(
        ChunkProgressUpdate::TaskStarted {
            task_id: task.task_id,
            input_path: task.input_path.clone(),
            chunk_count: task.chunks.len(),
        },
    );
    let mut i: usize = 0;
    while i < task.chunks.len()
        invariant
            outs@.len() == task.chunks@.len(),
            i <= task.chunks@.len(),
            task.chunks@.len() <= usize::MAX,
            evs@.len() == 1 + 2 * i,
            spec_is_task_started(evs@[0], *task),
            forall|j: int|
                0 <= j < i ==> spec_is_chunk_started(
                    evs@[1 + 2 * j],
                    task.task_id as int,
                    j,
                    (#[trigger] task.chunks@[j]).output_path@,
                ),
            forall|j: int|
                0 <= j < i ==> spec_is_chunk_completed(
                    evs@[2 + 2 * j],
                    task.task_id as int,
                    j,
                    #[trigger] outs@[j],
                ),
        decreases task.chunks@.len() - i,
    {
        evs.push(
            ChunkProgressUpdate::ChunkStarted {
                task_id: task.task_id,
                chunk_index: i,
                chunk_path: task.chunks[i].output_path.clone(),
            },
        );
        let succ: bool = match &outs[i] {
            Ok(_) => true,
            Err(_) => false,
        };
        let err: Option<String> = match &outs[i] {
            Ok(_) => None,
            Err(e) => Some(e.message()),
        };
        evs.push(
            ChunkProgressUpdate::ChunkCompleted {
                task_id: task.task_id,
                chunk_index: i,
                success: succ,
                error: err,
            },
        );
        i = i + 1;
    }
    let res = process_task_outcome(task, outs, merge);
    let res_copy = res.clone();
    evs.push(ChunkProgressUpdate::TaskCompleted { task_id: task.task_id, result: res_copy });
    (evs, res)
}

/// Whether an event is the batch's terminal summary for the started
/// tasks: the success and error counts partition them, the elapsed time
/// is carried through, and one exact result stands per started task.
pub open spec fn spec_is_all_completed(
    e: ChunkProgressUpdate,
    tasks: Seq<ChunkConversionTask>,
    outs: Seq<Vec<Result<(), ConversionError>>>,
    merges: Seq<Result<(), ConversionError>>,
    started: int,
    elapsed_ms: u64,
) -> bool {
    e matches ChunkProgressUpdate::AllTasksCompleted {
        success_count,
        error_count,
        total_duration_ms,
        results,
    } && (success_count as int == spec_success_upto(outs, merges, started) && success_count
        + error_count == started && total_duration_ms == elapsed_ms && results@.len() == started
        && forall|j: int|
        0 <= j < started ==> spec_result_ok(
            #[trigger] results@[j],
            tasks[j],
            outs[j]@,
            merges[j],
        ))
}

/// How many of the first `k` tasks were started before the cancellation
/// flag was observed: all of them without cancellation, at most the
/// observation point with it.
pub open spec fn spec_started_count(cancel_after: Option<usize>, n: int) -> int {
    match cancel_after {
        None => n,
        Some(k) => if (k as int) < n {
            k as int
        } else {
            n
        },
    }
}

/// The total event count of the first `k` task lifecycles.
pub open spec fn spec_prefix_len(tasks: Seq<ChunkConversionTask>, k: int) -> int
    decreases k,
{
    if k <= 0 {
        0
    } else {
        spec_prefix_len(tasks, k - 1) + spec_block_len(tasks[k - 1])
    }
}

/// Prefix event counts grow with the task count.
pub proof fn lemma_prefix_len_mono(tasks: Seq<ChunkConversionTask>, a: int, b: int)
    requires
        0 <= a <= b,
    ensures
        spec_prefix_len(tasks, a) <= spec_prefix_len(tasks, b),
        0 <= spec_prefix_len(tasks, a),
    decreases b,
{
    if b > 0 {
        if a == b {
            lemma_prefix_len_mono(tasks, if a > 0 { a - 1 } else { 0 }, b - 1);
        } else {
            lemma_prefix_len_mono(tasks, a, b - 1);
        }
    }
}

/// How many of the first `k` tasks came out fully successful.
pub open spec fn spec_success_upto(
    outs: Seq<Vec<Result<(), ConversionError>>>,
    merges: Seq<Result<(), ConversionError>>,
    k: int,
) -> int
    decreases k,
{
    if k <= 0 {
        0
    } else {
        spec_success_upto(outs, merges, k - 1) + if spec_task_success(outs[k - 1]@, merges[k - 1]) {
            1int
        } else {
            0int
        }
    }
}

/// How many segments the first `k` tasks hold together.
pub open spec fn spec_chunks_upto(tasks: Seq<ChunkConversionTask>, k: int) -> int
    decreases k,
{
    if k <= 0 {
        0
    } else {
        spec_chunks_upto(tasks, k - 1) + tasks[k - 1].chunks@.len()
    }
}

/// Segment counts grow with the task count.
pub proof fn lemma_chunks_upto_mono(tasks: Seq<ChunkConversionTask>, a: int, b: int)
    requires
        0 <= a <= b,
    ensures
        spec_chunks_upto(tasks, a) <= spec_chunks_upto(tasks, b),
        0 <= spec_chunks_upto(tasks, a),
    decreases b,
{
    if b > 0 {
        if a == b {
            lemma_chunks_upto_mono(tasks, if a > 0 { a - 1 } else { 0 }, b - 1);
        } else {
            lemma_chunks_upto_mono(tasks, a, b - 1);
        }
    }
}

/// How many segment successes the first `k` tasks hold together.
pub open spec fn spec_ok_chunks_upto(outs: Seq<Vec<Result<(), ConversionError>>>, k: int) -> int
    decreases k,
{
    if k <= 0 {
        0
    } else {
        spec_ok_chunks_upto(outs, k - 1) + spec_ok_upto(outs[k - 1]@, outs[k - 1]@.len() as int)
    }
}

/// The sequential model of the two-level batch executor.  It holds the
/// batch's policy, pool bound, counters and cancellation flag; the
/// surrounding application distributes the same per-task work over real
/// worker threads and feeds the observed outcomes through
/// [`Self::run_batch_model`] and [`emit_task_events`].
#[derive(Debug)]
pub struct VideoChunkParallelProcessor {
    /// The segmenting policy of this batch.
    pub config: VideoChunkConfig,
    /// The outer pool's thread bound.
    pub max_threads: usize,
    /// The batch counters.
    pub stats: ChunkConversionStats,
    /// The cooperative cancellation flag.
    pub cancelled: bool,
}

impl VideoChunkParallelProcessor {
    /// A fresh engine: the outer, task-level pool bound sized from the
    /// CPU count, zeroed counters, no cancellation.
    pub fn new(config: VideoChunkConfig) -> (r: Self)
        ensures
            r.config == config,
            2 <= r.max_threads <= 8,
            r.stats.wf(),
            r.stats.total_tasks == 0,
            r.stats.completed_tasks == 0,
            !r.cancelled,
    {
        VideoChunkParallelProcessor {
            config,
            max_threads: task_pool_size(),
            stats: ChunkConversionStats::new(),
            cancelled: false,
        }
    }

    /// Raises the cooperative cancellation flag; workers observe it
    /// before starting any further task.
    pub fn cancel_all_tasks(&mut self)
        ensures
            final(self).cancelled,
            final(self).config == old(self).config,
            final(self).max_threads == old(self).max_threads,
            final(self).stats == old(self).stats,
    {
        self.cancelled = true;
    }

    /// Reads the batch counters.
    pub fn get_stats(&self) -> (r: ChunkConversionStats)
        ensures
            r == self.stats,
    {
        self.stats
    }

    /// Runs one batch through the sequential model: clears the
    /// cancellation flag and resets the counters at batch start, refuses
    /// the whole batch before dispatching anything when the transcoder is
    /// missing, and otherwise walks the tasks in order, stops starting
    /// new tasks at the cancellation point, emits every lifecycle event,
    /// and settles the counters.  The returned event list ends with
    /// exactly one terminal summary; afterwards the flag stands raised
    /// exactly when a cancellation was observed during the run.
    pub fn run_batch_model(
        &mut self,
        tasks: &Vec<ChunkConversionTask>,
        executable_found: bool,
        chunk_outcomes: &Vec<Vec<Result<(), ConversionError>>>,
        merge_outcomes: &Vec<Result<(), ConversionError>>,
        cancel_after: Option<usize>,
        start_time_ms: u64,
        elapsed_ms: u64,
    ) -> (r: Result<Vec<ChunkProgressUpdate>, ConversionError>)
        requires
            chunk_outcomes@.len() == tasks@.len(),
            merge_outcomes@.len() == tasks@.len(),
            forall|j: int|
                0 <= j < tasks@.len() ==> (#[trigger] chunk_outcomes@[j])@.len()
                    == tasks@[j].chunks@.len(),
            spec_chunks_upto(tasks@, tasks@.len() as int) <= usize::MAX,
        ensures
            final(self).config == old(self).config,
            final(self).max_threads == old(self).max_threads,
            ({
                let n = tasks@.len() as int;
                let started = spec_started_count(cancel_after, n);
                let succ = spec_success_upto(chunk_outcomes@, merge_outcomes@, started);
                match r {
                    Err(e) => {
                        &&& !executable_found
                        &&& e is Spawn
                        &&& !final(self).cancelled
                        &&& final(self).stats.wf()
                        &&& final(self).stats.total_tasks == 0
                        &&& final(self).stats.completed_tasks == 0
                        &&& final(self).stats.successful_tasks == 0
                        &&& final(self).stats.failed_tasks == 0
                        &&& final(self).stats.total_chunks == 0
                        &&& final(self).stats.completed_chunks == 0
                        &&& final(self).stats.successful_chunks == 0
                        &&& final(self).stats.failed_chunks == 0
                        &&& final(self).stats.start_time_ms == Some(start_time_ms)
                    },
                    Ok(events) => {
                        &&& executable_found
                        &&& events@.len() == spec_prefix_len(tasks@, started) + 1
                        &&& forall|j: int|
                            0 <= j < started ==> spec_task_block_ok(
                                events@.subrange(
                                    spec_prefix_len(tasks@, j),
                                    spec_prefix_len(tasks@, j + 1),
                                ),
                                tasks@[j],
                                (#[trigger] chunk_outcomes@[j])@,
                                merge_outcomes@[j],
                            )
                        &&& spec_is_all_completed(
                            events@[events@.len() - 1],
                            tasks@,
                            chunk_outcomes@,
                            merge_outcomes@,
                            started,
                            elapsed_ms,
                        )
                        &&& final(self).stats.wf()
                        &&& final(self).stats.total_tasks == n
                        &&& final(self).stats.completed_tasks == started
                        &&& final(self).stats.successful_tasks == succ
                        &&& final(self).stats.failed_tasks == started - succ
                        &&& final(self).stats.total_chunks == spec_chunks_upto(tasks@, n)
                        &&& final(self).stats.completed_chunks == spec_chunks_upto(tasks@, started)
                        &&& final(self).stats.successful_chunks == spec_ok_chunks_upto(
                            chunk_outcomes@,
                            started,
                        )
                        &&& final(self).stats.start_time_ms == Some(start_time_ms)
                        &&& final(self).cancelled == (cancel_after is Some)
                    },
                }
            }),
    {
        // batch start: clear the cancellation flag and reset the counters
        self.cancelled = false;
        self.stats = ChunkConversionStats {
            total_tasks: 0,
            completed_tasks: 0,
            successful_tasks: 0,
            failed_tasks: 0,
            total_chunks: 0,
            completed_chunks: 0,
            successful_chunks: 0,
            failed_chunks: 0,
            start_time_ms: Some(start_time_ms),
        };
        if !executable_found {
            let mut m = String::new();
            m.append("FFmpeg 未找到");
            return Err(ConversionError::Spawn(m));
        }
        let n = tasks.len();
        let started: usize = match cancel_after {
            None => n,
            Some(k) => if k < n {
                k
            } else {
                n
            },
        };
        let mut total_chunks: usize = 0;
        let mut t: usize = 0;
        while t < n
            invariant
                n == tasks@.len(),
                t <= n,
                total_chunks as int == spec_chunks_upto(tasks@, t as int),
                spec_chunks_upto(tasks@, tasks@.len() as int) <= usize::MAX,
            decreases n - t,
        {
            proof {
                lemma_chunks_upto_mono(tasks@, t + 1 as int, n as int);
                lemma_chunks_upto_mono(tasks@, 0, t as int);
            }
            total_chunks = total_chunks + tasks[t].chunks.len();
            t = t + 1;
        }
        let mut events: Vec<ChunkProgressUpdate> = Vec::new();
        let mut results: Vec<ChunkConversionTaskResult> = Vec::new();
        let mut succ: usize = 0;
        let mut completed_chunks: usize = 0;
        let mut ok_chunks: usize = 0;
        let mut k: usize = 0;
        while k < started
            invariant
                n == tasks@.len(),
                chunk_outcomes@.len() == n,
                merge_outcomes@.len() == n,
                forall|j: int|
                    0 <= j < tasks@.len() ==> (#[trigger] chunk_outcomes@[j])@.len()
                        == tasks@[j].chunks@.len(),
                spec_chunks_upto(tasks@, tasks@.len() as int) <= usize::MAX,
                started <= n,
                k <= started,
                total_chunks as int == spec_chunks_upto(tasks@, n as int),
                events@.len() == spec_prefix_len(tasks@, k as int),
                forall|j: int|
                    0 <= j < k ==> spec_task_block_ok(
                        events@.subrange(
                            spec_prefix_len(tasks@, j),
                            spec_prefix_len(tasks@, j + 1),
                        ),
                        tasks@[j],
                        (#[trigger] chunk_outcomes@[j])@,
                        merge_outcomes@[j],
                    ),
                results@.len() == k as int,
                forall|j: int|
                    0 <= j < k ==> spec_result_ok(
                        #[trigger] results@[j],
                        tasks@[j],
                        chunk_outcomes@[j]@,
                        merge_outcomes@[j],
                    ),
                succ as int == spec_success_upto(chunk_outcomes@, merge_outcomes@, k as int),
                succ <= k,
                completed_chunks as int == spec_chunks_upto(tasks@, k as int),
                ok_chunks as int == spec_ok_chunks_upto(chunk_outcomes@, k as int),
                ok_chunks <= completed_chunks,
                completed_chunks <= total_chunks,
            decreases started - k,
        {
            let ghost old_events = events@;
            let ghost pk = spec_prefix_len(tasks@, k as int);
            let (mut block, res) = emit_task_events(
                &tasks[k],
                &chunk_outcomes[k],
                &merge_outcomes[k],
            );
            let ghost gblock = block@;
            let (ok_here, _failed_here) = count_outcomes(&chunk_outcomes[k]);
            events.append(&mut block);
            proof {
                assert(events@ == old_events + gblock);
                assert(events@.len() == spec_prefix_len(tasks@, k + 1 as int));
                assert(events@.subrange(pk, spec_prefix_len(tasks@, k + 1 as int)) =~= gblock);
                assert forall|j: int| 0 <= j < k implies spec_task_block_ok(
                    events@.subrange(spec_prefix_len(tasks@, j), spec_prefix_len(tasks@, j + 1)),
                    tasks@[j],
                    (#[trigger] chunk_outcomes@[j])@,
                    merge_outcomes@[j],
                ) by {
                    lemma_prefix_len_mono(tasks@, 0, j);
                    lemma_prefix_len_mono(tasks@, j, j + 1);
                    lemma_prefix_len_mono(tasks@, j + 1, k as int);
                    assert(events@.subrange(
                        spec_prefix_len(tasks@, j),
                        spec_prefix_len(tasks@, j + 1),
                    ) =~= old_events.subrange(
                        spec_prefix_len(tasks@, j),
                        spec_prefix_len(tasks@, j + 1),
                    ));
                }
            }
            let task_success = res.result.success;
            results.push(res);
            if task_success {
                succ = succ + 1;
            }
            proof {
                lemma_chunks_upto_mono(tasks@, k + 1 as int, n as int);
                lemma_ok_upto_bounds(chunk_outcomes@[k as int]@, chunk_outcomes@[k as int]@.len() as int);
            }
            completed_chunks = completed_chunks + tasks[k].chunks.len();
            ok_chunks = ok_chunks + ok_here;
            k = k + 1;
        }
        let ghost final_results = results@;
        events.push(
            ChunkProgressUpdate::AllTasksCompleted {
                success_count: succ,
                error_count: started - succ,
                total_duration_ms: elapsed_ms,
                results,
            },
        );
        proof {
            lemma_prefix_len_mono(tasks@, 0, started as int);
            assert forall|j: int| 0 <= j < started implies spec_task_block_ok(
                events@.subrange(spec_prefix_len(tasks@, j), spec_prefix_len(tasks@, j + 1)),
                tasks@[j],
                (#[trigger] chunk_outcomes@[j])@,
                merge_outcomes@[j],
            ) by {
                lemma_prefix_len_mono(tasks@, 0, j);
                lemma_prefix_len_mono(tasks@, j, j + 1);
                lemma_prefix_len_mono(tasks@, j + 1, started as int);
                assert(events@.subrange(
                    spec_prefix_len(tasks@, j),
                    spec_prefix_len(tasks@, j + 1),
                ) =~= events@.take(spec_prefix_len(tasks@, started as int)).subrange(
                    spec_prefix_len(tasks@, j),
                    spec_prefix_len(tasks@, j + 1),
                ));
            }
        }
        self.stats = ChunkConversionStats {
            total_tasks: n,
            completed_tasks: started,
            successful_tasks: succ,
            failed_tasks: started - succ,
            total_chunks,
            completed_chunks,
            successful_chunks: ok_chunks,
            failed_chunks: completed_chunks - ok_chunks,
            start_time_ms: Some(start_time_ms),
        };
        self.cancelled = match cancel_after {
            Some(_) => true,
            None => false,
        };
        Ok(events)
    }
}

/// A batch whose transcoder succeeds on every segment and every merge,
/// uncancelled, reports every task successful.
pub proof fn lemma_all_success_batch(
    outs: Seq<Vec<Result<(), ConversionError>>>,
    merges: Seq<Result<(), ConversionError>>,
    k: int,
)
    requires
        0 <= k <= outs.len(),
        merges.len() == outs.len(),
        forall|j: int| 0 <= j < k ==> spec_all_ok((#[trigger] outs[j])@),
        forall|j: int| 0 <= j < k ==> (#[trigger] merges[j]) is Ok,
    ensures
        spec_success_upto(outs, merges, k) == k,
    decreases k,
{
    if k > 0 {
        lemma_all_success_batch(outs, merges, k - 1);
    }
}

/// Tasks cannot come out successful more often than they were started.
pub proof fn lemma_success_upto_bounds(
    outs: Seq<Vec<Result<(), ConversionError>>>,
    merges: Seq<Result<(), ConversionError>>,
    k: int,
)
    requires
        0 <= k,
    ensures
        0 <= spec_success_upto(outs, merges, k) <= k,
    decreases k,
{
    if k > 0 {
        lemma_success_upto_bounds(outs, merges, k - 1);
    }
}

/// Cancellation caps dispatch: the started count never exceeds the
/// observation point, nor the batch size.
pub proof fn lemma_cancellation_bounds_started(cancel_after: Option<usize>, n: int)
    requires
        n >= 0,
    ensures
        0 <= spec_started_count(cancel_after, n) <= n,
        cancel_after matches Some(k) ==> spec_started_count(cancel_after, n) <= k as int,
{
}


/// The directory and file stem one task's outputs are named by: the
/// input's stem made safe, or a numbered fallback when the path has no
/// file name.
pub open spec fn spec_task_stem(file: Seq<char>, task_id: nat) -> Seq<char> {
    if crate::paths::spec_file_name(file).len() == 0 {
        "video_"@ + crate::numfmt::dec_str_pad3(task_id)
    } else {
        crate::strings::spec_safe_pinyin(crate::paths::spec_file_stem(file))
    }
}

/// Whether one task record is exactly what planning prescribes for the
/// given input: the identity fields, the final output path, and a
/// segment plan laid out under the task's own output directory.
pub open spec fn spec_planned_task_ok(
    cfg: VideoChunkConfig,
    file: Seq<char>,
    output_dir: Seq<char>,
    duration: u32,
    video_quality: u8,
    audio_quality: u8,
    t: ChunkConversionTask,
) -> bool {
    let stem = spec_task_stem(file, t.task_id as nat);
    let acfg = crate::chunking::spec_adjusted(cfg, duration);
    let n = crate::chunking::spec_chunk_count(acfg, duration);
    &&& t.input_path@ == file
    &&& t.video_quality == video_quality
    &&& t.audio_quality == audio_quality
    &&& t.final_output_path@ == crate::paths::spec_ensure_path_length(
        crate::chunking::spec_joined(output_dir, stem + ".ogv"@),
        crate::chunking::MAX_OUTPUT_PATH_LEN as int,
    )
    &&& t.chunks@.len() == n
    &&& forall|k: int|
        0 <= k < n ==> crate::chunking::spec_chunk_ok(
            acfg,
            file,
            crate::chunking::spec_joined(output_dir, stem),
            duration,
            n,
            k,
            #[trigger] t.chunks@[k],
        )
}

/// Names one task's output stem.
fn task_stem(file: &str, task_id: usize) -> (r: String)
    ensures
        r@ == spec_task_stem(file@, task_id as nat),
{
    let name = crate::paths::file_name_chars(file);
    if name.len() == 0 {
        let mut s = String::new();
        s.append("video_");
        let idx = crate::numfmt::u64_to_string_pad3(task_id as u64);
        s.append(idx.as_str());
        proof {
            assert(s@ =~= "video_"@ + crate::numfmt::dec_str_pad3(task_id as nat));
        }
        s
    } else {
        let stem = crate::paths::file_stem_chars(file);
        let stem_s = crate::text::chars_to_string(&stem);
        crate::strings::StringUtils::to_ascii_safe_pinyin(stem_s.as_str())
    }
}

impl VideoChunkParallelProcessor {
    /// Plans the batch's tasks: one per input whose plan succeeds, each
    /// keeping its input's index as its task id, its segment plan laid
    /// out under its own output directory, and its final output named
    /// after its safe stem.  An input whose plan is refused is skipped —
    /// the batch never stalls on one bad input — so the task ids climb
    /// but may leave gaps.
    pub fn create_conversion_tasks(
        &self,
        ffmpeg_path: &str,
        files: &Vec<String>,
        durations: &Vec<u32>,
        output_dir: &str,
        video_quality: u8,
        audio_quality: u8,
    ) -> (r: Vec<ChunkConversionTask>)
        requires
            files@.len() == durations@.len(),
        ensures
            r@.len() <= files@.len(),
            forall|j: int|
                0 <= j < r@.len() ==> (#[trigger] r@[j]).task_id < files@.len()
                    && spec_planned_task_ok(
                    self.config,
                    files@[r@[j].task_id as int]@,
                    output_dir@,
                    durations@[r@[j].task_id as int],
                    video_quality,
                    audio_quality,
                    r@[j],
                ),
            forall|j1: int, j2: int|
                0 <= j1 < j2 < r@.len() ==> (#[trigger] r@[j1]).task_id < (#[trigger] r@[j2]).task_id,
            forall|i: int|
                0 <= i < files@.len() ==> (!crate::chunking::spec_plan_error(
                    crate::chunking::spec_adjusted(self.config, durations@[i]),
                    durations@[i],
                ) <==> exists|j: int| 0 <= j < r@.len() && (#[trigger] r@[j]).task_id == i),
    {
        let mut path = String::new();
        path.append(ffmpeg_path);
        let converter = crate::chunking::VideoChunkConverter::new(path, self.config);
        let mut tasks: Vec<ChunkConversionTask> = Vec::new();
        let mut i: usize = 0;
        while i < files.len()
            invariant
                files@.len() == durations@.len(),
                i <= files@.len(),
                converter.config == self.config,
                tasks@.len() <= i as int,
                forall|j: int|
                    0 <= j < tasks@.len() ==> (#[trigger] tasks@[j]).task_id < i
                        && spec_planned_task_ok(
                        self.config,
                        files@[tasks@[j].task_id as int]@,
                        output_dir@,
                        durations@[tasks@[j].task_id as int],
                        video_quality,
                        audio_quality,
                        tasks@[j],
                    ),
                forall|j1: int, j2: int|
                    0 <= j1 < j2 < tasks@.len() ==> (#[trigger] tasks@[j1]).task_id < (
                    #[trigger] tasks@[j2]).task_id,
                forall|ii: int|
                    0 <= ii < i ==> (!crate::chunking::spec_plan_error(
                        crate::chunking::spec_adjusted(self.config, durations@[ii]),
                        durations@[ii],
                    ) <==> exists|j: int|
                        0 <= j < tasks@.len() && (#[trigger] tasks@[j]).task_id == ii),
            decreases files@.len() - i,
        {
            let ghost pre = tasks@;
            let stem = task_stem(files[i].as_str(), i);
            let video_output_dir = crate::paths::join_path(output_dir, stem.as_str());
            match converter.create_chunk_plan(
                files[i].as_str(),
                video_output_dir.as_str(),
                durations[i],
            ) {
                Ok(chunks) => {
                    let mut final_name = stem;
                    final_name.append(".ogv");
                    let joined_final = crate::paths::join_path(output_dir, final_name.as_str());
                    let final_output_path = crate::strings::StringUtils::ensure_path_length(
                        joined_final.as_str(),
                        crate::chunking::MAX_OUTPUT_PATH_LEN,
                    );
                    let mut input_path = String::new();
                    input_path.append(files[i].as_str());
                    proof {
                        assert(input_path@ =~= files@[i as int]@);
                    }
                    let task = ChunkConversionTask {
                        task_id: i,
                        input_path,
                        chunks,
                        video_quality,
                        audio_quality,
                        final_output_path,
                    };
                    tasks.push(task);
                    proof {
                        let last = tasks@.len() - 1;
                        assert(tasks@[last].task_id == i as int);
                        assert(spec_planned_task_ok(
                            self.config,
                            files@[i as int]@,
                            output_dir@,
                            durations@[i as int],
                            video_quality,
                            audio_quality,
                            tasks@[last],
                        ));
                        assert forall|ii: int| 0 <= ii < i + 1 implies (
                        !crate::chunking::spec_plan_error(
                            crate::chunking::spec_adjusted(self.config, durations@[ii]),
                            durations@[ii],
                        ) <==> exists|j: int|
                            0 <= j < tasks@.len() && (#[trigger] tasks@[j]).task_id == ii) by {
                            if ii == i as int {
                                assert(tasks@[last].task_id == ii);
                            } else {
                                if !crate::chunking::spec_plan_error(
                                    crate::chunking::spec_adjusted(self.config, durations@[ii]),
                                    durations@[ii],
                                ) {
                                    let j0 = choose|j: int|
                                        0 <= j < pre.len() && (#[trigger] pre[j]).task_id == ii;
                                    assert(tasks@[j0].task_id == ii);
                                } else {
                                    assert forall|j: int|
                                        0 <= j < tasks@.len() implies (
                                    #[trigger] tasks@[j]).task_id != ii by {
                                        if j < pre.len() {
                                            assert(pre[j].task_id != ii);
                                        } else {
                                            assert(tasks@[j].task_id == i as int);
                                        }
                                    }
                                }
                            }
                        }
                    }
                },
                Err(_) => {
                    proof {
                        assert(crate::chunking::spec_plan_error(
                            crate::chunking::spec_adjusted(self.config, durations@[i as int]),
                            durations@[i as int],
                        ));
                        assert forall|j: int| 0 <= j < tasks@.len() implies (
                        #[trigger] tasks@[j]).task_id != i as int by {
                            assert(tasks@[j].task_id < i);
                        }
                    }
                },
            }
            i = i + 1;
        }
        tasks
    }
}

} // verus!
