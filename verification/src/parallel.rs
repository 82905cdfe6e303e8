//! The whole-file parallel converter: its policy, its task and result
//! records, its progress events, and the sequential model of its worker
//! loop.  The surrounding application runs the threads and the
//! transcoder.

use vstd::prelude::*;
use crate::errors::ConversionError;
use crate::numfmt::{dec_str_pad3, u64_to_string_pad3};
use crate::paths::{
    spec_file_name, spec_stem_of_name, file_name_chars, file_stem_chars, join_path,
};
use crate::resources::cpu_count;
use crate::strings::{spec_safe_filename, StringUtils};
use crate::text::chars_to_string;
use crate::chunking::spec_joined;

verus! {

/// The whole-file converter's policy.
#[derive(Debug, Clone, Copy)]
pub struct ParallelConfig {
    /// The worker-pool bound.
    pub max_threads: usize,
    /// The progress channel's capacity.
    pub queue_size: usize,
    /// Whether the pool is retuned from the workload's shape.
    pub smart_scheduling: bool,
}

impl Default for ParallelConfig {
    /// A pool of twice the CPU count clamped between two and eight, a
    /// thousand-entry progress channel, smart retuning on.
    fn default() -> (r: Self)
        ensures
            2 <= r.max_threads <= 8,
            r.queue_size == 1000,
            r.smart_scheduling,
    {
        let cores = cpu_count();
        let max_threads = crate::resources::pool_size_from(cores, 2, 8);
        ParallelConfig { max_threads, queue_size: 1000, smart_scheduling: true }
    }
}

/// What the workload retuning makes of the pool bound: large files
/// halve it to spare memory (never under two), many small files grow it
/// by half (never over twelve), anything else leaves it alone.
pub open spec fn spec_adjusted_threads(
    cfg: ParallelConfig,
    total_files: usize,
    avg_file_size_mb: u64,
) -> int {
    if !cfg.smart_scheduling {
        cfg.max_threads as int
    } else if avg_file_size_mb > 100 {
        if cfg.max_threads as int / 2 >= 2 {
            cfg.max_threads as int / 2
        } else {
            2
        }
    } else if avg_file_size_mb < 10 && total_files > 50 {
        if cfg.max_threads as int * 3 / 2 <= 12 {
            cfg.max_threads as int * 3 / 2
        } else {
            12
        }
    } else {
        cfg.max_threads as int
    }
}

impl ParallelConfig {
    /// Retunes the pool for the workload when smart scheduling is on:
    /// large files halve the pool to spare memory, many small files grow
    /// it by half up to twelve.
    pub fn adjust_for_file_size(&mut self, total_files: usize, avg_file_size_mb: u64)
        requires
            old(self).max_threads <= 0x1000,
        ensures
            final(self).queue_size == old(self).queue_size,
            final(self).smart_scheduling == old(self).smart_scheduling,
            final(self).max_threads as int == spec_adjusted_threads(
                *old(self),
                total_files,
                avg_file_size_mb,
            ),
    {
        if self.smart_scheduling {
            if avg_file_size_mb > 100 {
                let halved = self.max_threads / 2;
                self.max_threads = if halved >= 2 {
                    halved
                } else {
                    2
                };
            } else if avg_file_size_mb < 10 && total_files > 50 {
                let grown = self.max_threads * 3 / 2;
                self.max_threads = if grown <= 12 {
                    grown
                } else {
                    12
                };
            }
        }
    }
}

/// One whole-file conversion job.
#[derive(Debug)]
pub enum ConversionTask {
    Audio { input_path: String, output_path: String, task_id: usize },
    Video { input_path: String, output_path: String, task_id: usize },
}

impl ConversionTask {
    /// The task's index within its batch.
    pub open spec fn spec_task_id(&self) -> usize {
        match self {
            ConversionTask::Audio { task_id, .. } => *task_id,
            ConversionTask::Video { task_id, .. } => *task_id,
        }
    }

    /// The task's input file.
    pub open spec fn spec_input_path(&self) -> Seq<char> {
        match self {
            ConversionTask::Audio { input_path, .. } => input_path@,
            ConversionTask::Video { input_path, .. } => input_path@,
        }
    }

    /// The task's output file.
    pub open spec fn spec_output_path(&self) -> Seq<char> {
        match self {
            ConversionTask::Audio { output_path, .. } => output_path@,
            ConversionTask::Video { output_path, .. } => output_path@,
        }
    }

    /// Hands out the task's index within its batch.
    pub fn task_id(&self) -> (r: usize)
        ensures
            r == self.spec_task_id(),
    {
        match self {
            ConversionTask::Audio { task_id, .. } => *task_id,
            ConversionTask::Video { task_id, .. } => *task_id,
        }
    }

    /// Borrows the task's input file.
    pub fn input_path(&self) -> (r: &String)
        ensures
            r@ == self.spec_input_path(),
    {
        match self {
            ConversionTask::Audio { input_path, .. } => input_path,
            ConversionTask::Video { input_path, .. } => input_path,
        }
    }
}

/// One whole-file conversion's outcome.
#[derive(Debug)]
pub enum ConversionResult {
    Success { task_id: usize, input_path: String, output_path: String, duration_ms: u64, message: String },
    Error { task_id: usize, input_path: String, error: String },
}

impl ConversionResult {
    /// The input file the outcome belongs to.
    pub open spec fn spec_input_path(&self) -> Seq<char> {
        match self {
            ConversionResult::Success { input_path, .. } => input_path@,
            ConversionResult::Error { input_path, .. } => input_path@,
        }
    }

    /// The outcome's display line.
    pub open spec fn spec_message(&self) -> Seq<char> {
        match self {
            ConversionResult::Success { message, .. } => message@,
            ConversionResult::Error { error, .. } => error@,
        }
    }

    /// Borrows the input file the outcome belongs to.
    pub fn input_path(&self) -> (r: &String)
        ensures
            r@ == self.spec_input_path(),
    {
        match self {
            ConversionResult::Success { input_path, .. } => input_path,
            ConversionResult::Error { input_path, .. } => input_path,
        }
    }

    /// Hands out the outcome's display line: the success message or the
    /// error text.
    pub fn get_message(&self) -> (r: String)
        ensures
            r@ == self.spec_message(),
    {
        match self {
            ConversionResult::Success { message, .. } => message.clone(),
            ConversionResult::Error { error, .. } => error.clone(),
        }
    }
}

/// One lifecycle event of the whole-file batch.
#[derive(Debug)]
pub enum ProgressUpdate {
    /// A worker picked the task up.
    TaskStarted { task_id: usize, filename: String, total_tasks: usize },
    /// The task ended; carries the running completion count.
    TaskCompleted {
        task_id: usize,
        result: ConversionResult,
        completed_count: usize,
        total_tasks: usize,
    },
    /// The batch ended; always the last event.
    AllTasksCompleted {
        success_count: usize,
        error_count: usize,
        total_duration_ms: u64,
        results: Vec<ConversionResult>,
    },
}

/// The output file name of one audio task: the safe stem with the audio
/// extension, or a numbered fallback when the path has no file name.
pub open spec fn spec_audio_output_name(input: Seq<char>, i: nat) -> Seq<char> {
    if spec_file_name(input).len() > 0 {
        spec_safe_filename(spec_stem_of_name(spec_file_name(input)), i) + ".ogg"@
    } else {
        "audio"@ + dec_str_pad3(i) + ".ogg"@
    }
}

/// The output file name of one video task, analogously.
pub open spec fn spec_video_output_name(input: Seq<char>, i: nat) -> Seq<char> {
    if spec_file_name(input).len() > 0 {
        spec_safe_filename(spec_stem_of_name(spec_file_name(input)), i) + ".ogv"@
    } else {
        "video"@ + dec_str_pad3(i) + ".ogv"@
    }
}

fn output_name_for(input_path: &str, i: usize, audio: bool) -> (r: String)
    ensures
        audio ==> r@ == spec_audio_output_name(input_path@, i as nat),
        !audio ==> r@ == spec_video_output_name(input_path@, i as nat),
{
    let name = file_name_chars(input_path);
    if name.len() == 0 {
        let mut s = String::new();
        if audio {
            s.append("audio");
        } else {
            s.append("video");
        }
        let idx = u64_to_string_pad3(i as u64);
        s.append(idx.as_str());
        if audio {
            s.append(".ogg");
        } else {
            s.append(".ogv");
        }
        proof {
            if audio {
                assert(s@ =~= "audio"@ + dec_str_pad3(i as nat) + ".ogg"@);
            } else {
                assert(s@ =~= "video"@ + dec_str_pad3(i as nat) + ".ogv"@);
            }
        }
        s
    } else {
        let stem = file_stem_chars(input_path);
        let stem_s = chars_to_string(&stem);
        let mut s = StringUtils::safe_filename_pinyin(stem_s.as_str(), i);
        if audio {
            s.append(".ogg");
        } else {
            s.append(".ogv");
        }
        s
    }
}

/// Plans the audio batch: one task per input in order, each with its
/// index and its output path under the output directory.
pub fn prepare_audio_tasks(files: &Vec<String>, output_dir: &str) -> (r: Vec<ConversionTask>)
    ensures
        r@.len() == files@.len(),
        forall|i: int|
            0 <= i < files@.len() ==> {
                &&& (#[trigger] r@[i]) is Audio
                &&& r@[i].spec_task_id() == i
                &&& r@[i].spec_input_path() == files@[i]@
                &&& r@[i].spec_output_path() == spec_joined(
                    output_dir@,
                    spec_audio_output_name(files@[i]@, i as nat),
                )
            },
{
    let mut tasks: Vec<ConversionTask> = Vec::new();
    let mut i: usize = 0;
    while i < files.len()
        invariant
            i <= files@.len(),
            tasks@.len() == i as int,
            forall|j: int|
                0 <= j < i ==> {
                    &&& (#[trigger] tasks@[j]) is Audio
                    &&& tasks@[j].spec_task_id() == j
                    &&& tasks@[j].spec_input_path() == files@[j]@
                    &&& tasks@[j].spec_output_path() == spec_joined(
                        output_dir@,
                        spec_audio_output_name(files@[j]@, j as nat),
                    )
                },
        decreases files@.len() - i,
    {
        let name = output_name_for(files[i].as_str(), i, true);
        let output_path = join_path(output_dir, name.as_str());
        tasks.push(
            ConversionTask::Audio { input_path: files[i].clone(), output_path, task_id: i },
        );
        i = i + 1;
    }
    tasks
}

/// Plans the video batch, analogously to the audio one.
pub fn prepare_video_tasks(files: &Vec<String>, output_dir: &str) -> (r: Vec<ConversionTask>)
    ensures
        r@.len() == files@.len(),
        forall|i: int|
            0 <= i < files@.len() ==> {
                &&& (#[trigger] r@[i]) is Video
                &&& r@[i].spec_task_id() == i
                &&& r@[i].spec_input_path() == files@[i]@
                &&& r@[i].spec_output_path() == spec_joined(
                    output_dir@,
                    spec_video_output_name(files@[i]@, i as nat),
                )
            },
{
    let mut tasks: Vec<ConversionTask> = Vec::new();
    let mut i: usize = 0;
    while i < files.len()
        invariant
            i <= files@.len(),
            tasks@.len() == i as int,
            forall|j: int|
                0 <= j < i ==> {
                    &&& (#[trigger] tasks@[j]) is Video
                    &&& tasks@[j].spec_task_id() == j
                    &&& tasks@[j].spec_input_path() == files@[j]@
                    &&& tasks@[j].spec_output_path() == spec_joined(
                        output_dir@,
                        spec_video_output_name(files@[j]@, j as nat),
                    )
                },
        decreases files@.len() - i,
    {
        let name = output_name_for(files[i].as_str(), i, false);
        let output_path = join_path(output_dir, name.as_str());
        tasks.push(
            ConversionTask::Video { input_path: files[i].clone(), output_path, task_id: i },
        );
        i = i + 1;
    }
    tasks
}

/// Whether a result records exactly the given task and outcome: success
/// with the kind's message on `Ok`, the prefixed error text on `Err`.
pub open spec fn spec_conversion_result_ok(
    res: ConversionResult,
    task: ConversionTask,
    outcome: Result<(), ConversionError>,
    duration_ms: u64,
) -> bool {
    match outcome {
        Ok(_) => res matches ConversionResult::Success {
            task_id,
            input_path,
            output_path,
            duration_ms: d,
            message,
        } && (task_id == task.spec_task_id() && input_path@ == task.spec_input_path()
            && output_path@ == task.spec_output_path() && d == duration_ms && (task is Audio
            ==> message@ == "音频转换成功"@) && (task is Video ==> message@
            == "视频转换成功"@)),
        Err(e) => res matches ConversionResult::Error { task_id, input_path, error } && (task_id
            == task.spec_task_id() && input_path@ == task.spec_input_path() && (task is Audio
            ==> error@ == "音频转换失败: "@ + e.spec_message()) && (task is Video
            ==> error@ == "视频转换失败: "@ + e.spec_message())),
    }
}

/// Decides one whole-file task's result record from what the worker
/// observed: the kind's success message, or the kind's error prefix and
/// the transcoder's diagnostic text.
pub fn conversion_result_from_outcome(
    task: &ConversionTask,
    outcome: &Result<(), ConversionError>,
    duration_ms: u64,
) -> (res: ConversionResult)
    ensures
        spec_conversion_result_ok(res, *task, *outcome, duration_ms),
{
    let audio = match task {
        ConversionTask::Audio { .. } => true,
        ConversionTask::Video { .. } => false,
    };
    match outcome {
        Ok(_) => {
            let message = if audio {
                String::from_str("音频转换成功")
            } else {
                String::from_str("视频转换成功")
            };
            let (input_path, output_path): (String, String) = match task {
                ConversionTask::Audio { input_path, output_path, .. } => (
                    input_path.clone(),
                    output_path.clone(),
                ),
                ConversionTask::Video { input_path, output_path, .. } => (
                    input_path.clone(),
                    output_path.clone(),
                ),
            };
            ConversionResult::Success {
                task_id: task.task_id(),
                input_path,
                output_path,
                duration_ms,
                message,
            }
        },
        Err(e) => {
            let mut error = String::new();
            if audio {
                error.append("音频转换失败: ");
            } else {
                error.append("视频转换失败: ");
            }
            let msg = e.message();
            error.append(msg.as_str());
            let input_path: String = match task {
                ConversionTask::Audio { input_path, .. } => input_path.clone(),
                ConversionTask::Video { input_path, .. } => input_path.clone(),
            };
            proof {
                if task is Audio {
                    assert(error@ =~= "音频转换失败: "@ + e.spec_message());
                } else {
                    assert(error@ =~= "视频转换失败: "@ + e.spec_message());
                }
            }
            ConversionResult::Error { task_id: task.task_id(), input_path, error }
        },
    }
}

/// The worker-loop decision: a worker that observes the cancellation
/// flag stops taking tasks; otherwise it takes the next one.
pub fn should_take_next_task(cancelled: bool, remaining: usize) -> (r: bool)
    ensures
        r == (!cancelled && remaining > 0),
{
    !cancelled && remaining > 0
}


/// Field-exact copy of a result record.
fn clone_conversion_result(r: &ConversionResult) -> (c: ConversionResult)
    ensures
        match (r, c) {
            (
                ConversionResult::Success { task_id, input_path, output_path, duration_ms, message },
                ConversionResult::Success {
                    task_id: t2,
                    input_path: i2,
                    output_path: o2,
                    duration_ms: d2,
                    message: m2,
                },
            ) => t2 == task_id && i2@ == input_path@ && o2@ == output_path@ && d2 == duration_ms
                && m2@ == message@,
            (
                ConversionResult::Error { task_id, input_path, error },
                ConversionResult::Error { task_id: t2, input_path: i2, error: e2 },
            ) => t2 == task_id && i2@ == input_path@ && e2@ == error@,
            _ => false,
        },
{
    match r {
        ConversionResult::Success { task_id, input_path, output_path, duration_ms, message } => {
            ConversionResult::Success {
                task_id: *task_id,
                input_path: input_path.clone(),
                output_path: output_path.clone(),
                duration_ms: *duration_ms,
                message: message.clone(),
            }
        },
        ConversionResult::Error { task_id, input_path, error } => {
            ConversionResult::Error {
                task_id: *task_id,
                input_path: input_path.clone(),
                error: error.clone(),
            }
        },
    }
}

/// The cloned record still records the same task and outcome.
proof fn lemma_clone_keeps_result_ok(
    r: ConversionResult,
    c: ConversionResult,
    task: ConversionTask,
    outcome: Result<(), ConversionError>,
    duration_ms: u64,
)
    requires
        spec_conversion_result_ok(r, task, outcome, duration_ms),
        match (r, c) {
            (
                ConversionResult::Success { task_id, input_path, output_path, duration_ms: d1, message },
                ConversionResult::Success {
                    task_id: t2,
                    input_path: i2,
                    output_path: o2,
                    duration_ms: d2,
                    message: m2,
                },
            ) => t2 == task_id && i2@ == input_path@ && o2@ == output_path@ && d2 == d1 && m2@
                == message@,
            (
                ConversionResult::Error { task_id, input_path, error },
                ConversionResult::Error { task_id: t2, input_path: i2, error: e2 },
            ) => t2 == task_id && i2@ == input_path@ && e2@ == error@,
            _ => false,
        },
    ensures
        spec_conversion_result_ok(c, task, outcome, duration_ms),
{
}

/// Whether an event is the start marker of the given whole-file task.
pub open spec fn spec_is_file_task_started(e: ProgressUpdate, t: ConversionTask, total: int) -> bool {
    e matches ProgressUpdate::TaskStarted { task_id, filename, total_tasks } && (task_id
        == t.spec_task_id() && filename@ == spec_file_name(t.spec_input_path()) && total_tasks
        == total)
}

/// Whether an event is the completion marker of the given whole-file
/// task, carrying its exact result and the running completion count.
pub open spec fn spec_is_file_task_completed(
    e: ProgressUpdate,
    t: ConversionTask,
    outcome: Result<(), ConversionError>,
    duration_ms: u64,
    completed: int,
    total: int,
) -> bool {
    e matches ProgressUpdate::TaskCompleted { task_id, result, completed_count, total_tasks } && (
    task_id == t.spec_task_id() && spec_conversion_result_ok(result, t, outcome, duration_ms)
        && completed_count == completed && total_tasks == total)
}

/// Whether an event is the whole-file batch's terminal summary.
pub open spec fn spec_is_file_batch_completed(
    e: ProgressUpdate,
    tasks: Seq<ConversionTask>,
    outcomes: Seq<Result<(), ConversionError>>,
    durations: Seq<u64>,
    started: int,
    elapsed_ms: u64,
) -> bool {
    e matches ProgressUpdate::AllTasksCompleted {
        success_count,
        error_count,
        total_duration_ms,
        results,
    } && (success_count as int == crate::processor::spec_ok_upto(outcomes, started) && success_count
        + error_count == started && total_duration_ms == elapsed_ms && results@.len() == started
        && forall|j: int|
        0 <= j < started ==> spec_conversion_result_ok(
            #[trigger] results@[j],
            tasks[j],
            outcomes[j],
            durations[j],
        ))
}

/// The sequential model of the whole-file worker loop: walks the tasks
/// in order, stops starting new tasks at the cancellation point, emits
/// a start and a completion marker per started task — the completion
/// carrying the running count — and ends with exactly one terminal
/// summary.
pub fn run_parallel_batch_model(
    tasks: &Vec<ConversionTask>,
    outcomes: &Vec<Result<(), ConversionError>>,
    durations_ms: &Vec<u64>,
    cancel_after: Option<usize>,
    elapsed_ms: u64,
) -> (r: Vec<ProgressUpdate>)
    requires
        outcomes@.len() == tasks@.len(),
        durations_ms@.len() == tasks@.len(),
    ensures
        ({
            let n = tasks@.len() as int;
            let started = crate::processor::spec_started_count(cancel_after, n);
            &&& r@.len() == 2 * started + 1
            &&& forall|j: int|
                0 <= j < started ==> spec_is_file_task_started(r@[2 * j], #[trigger] tasks@[j], n)
            &&& forall|j: int|
                0 <= j < started ==> spec_is_file_task_completed(
                    r@[2 * j + 1],
                    #[trigger] tasks@[j],
                    outcomes@[j],
                    durations_ms@[j],
                    j + 1,
                    n,
                )
            &&& spec_is_file_batch_completed(
                r@[r@.len() - 1],
                tasks@,
                outcomes@,
                durations_ms@,
                started,
                elapsed_ms,
            )
        }),
{
    let n = tasks.len();
    let started: usize = match cancel_after {
        None => n,
        Some(k) => if k < n {
            k
        } else {
            n
        },
    };
    let mut events: Vec<ProgressUpdate> = Vec::new();
    let mut results: Vec<ConversionResult> = Vec::new();
    let mut success: usize = 0;
    let mut k: usize = 0;
    while k < started
        invariant
            n == tasks@.len(),
            outcomes@.len() == n,
            durations_ms@.len() == n,
            started <= n,
            k <= started,
            events@.len() == 2 * k,
            results@.len() == k as int,
            success as int == crate::processor::spec_ok_upto(outcomes@, k as int),
            success <= k,
            forall|j: int|
                0 <= j < k ==> spec_is_file_task_started(events@[2 * j], #[trigger] tasks@[j], n as int),
            forall|j: int|
                0 <= j < k ==> spec_is_file_task_completed(
                    events@[2 * j + 1],
                    #[trigger] tasks@[j],
                    outcomes@[j],
                    durations_ms@[j],
                    j + 1,
                    n as int,
                ),
            forall|j: int|
                0 <= j < k ==> spec_conversion_result_ok(
                    #[trigger] results@[j],
                    tasks@[j],
                    outcomes@[j],
                    durations_ms@[j],
                ),
        decreases started - k,
    {
        let task = &tasks[k];
        let name = file_name_chars(task.input_path().as_str());
        let filename = chars_to_string(&name);
        events.push(
            ProgressUpdate::TaskStarted { task_id: task.task_id(), filename, total_tasks: n },
        );
        let result = conversion_result_from_outcome(task, &outcomes[k], durations_ms[k]);
        let result_copy = clone_conversion_result(&result);
        proof {
            lemma_clone_keeps_result_ok(
                result,
                result_copy,
                tasks@[k as int],
                outcomes@[k as int],
                durations_ms@[k as int],
            );
            crate::processor::lemma_ok_upto_bounds(outcomes@, k as int);
        }
        match &outcomes[k] {
            Ok(_) => {
                success = success + 1;
            },
            Err(_) => {},
        }
        events.push(
            ProgressUpdate::TaskCompleted {
                task_id: task.task_id(),
                result: result_copy,
                completed_count: k + 1,
                total_tasks: n,
            },
        );
        results.push(result);
        k = k + 1;
    }
    events.push(
        ProgressUpdate::AllTasksCompleted {
            success_count: success,
            error_count: started - success,
            total_duration_ms: elapsed_ms,
            results,
        },
    );
    events
}

} // verus!
