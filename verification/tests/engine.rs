use zeus_media::chunking::{VideoChunk, VideoChunkConfig};
use zeus_media::errors::ConversionError;
use zeus_media::processor::{
    chunk_failure_summary, count_outcomes, process_task_outcome, ChunkConversionTask,
    ChunkProgressUpdate, VideoChunkParallelProcessor,
};

fn chunk(index: usize, start: u32, duration: u32) -> VideoChunk {
    VideoChunk {
        index,
        input_path: String::from("in.mp4"),
        start_time: start,
        duration,
        output_path: format!("out/in_chunk_{:03}.ogv", index),
    }
}

fn task(id: usize, segment_count: usize) -> ChunkConversionTask {
    let mut chunks = Vec::new();
    for i in 0..segment_count {
        chunks.push(chunk(i, (i as u32) * 30, 30));
    }
    ChunkConversionTask {
        task_id: id,
        input_path: String::from("in.mp4"),
        chunks,
        video_quality: 5,
        audio_quality: 3,
        final_output_path: String::from("out/in.ogv"),
    }
}

fn all_ok(n: usize) -> Vec<Result<(), ConversionError>> {
    let mut v: Vec<Result<(), ConversionError>> = Vec::new();
    for _ in 0..n {
        v.push(Ok(()));
    }
    v
}

#[test]
fn missing_executable_is_batch_fatal_with_no_events() {
    let mut engine = VideoChunkParallelProcessor::new(VideoChunkConfig::default());
    let tasks = vec![task(0, 1)];
    let outcomes = vec![all_ok(1)];
    let merges: Vec<Result<(), ConversionError>> = vec![Ok(())];
    let r = engine.run_batch_model(&tasks, false, &outcomes, &merges, None, 0, 10);
    let err = r.unwrap_err();
    assert!(err.is_spawn());
    assert_eq!(engine.get_stats().completed_tasks, 0);
}

#[test]
fn five_short_files_all_succeed() {
    let mut engine = VideoChunkParallelProcessor::new(VideoChunkConfig::default());
    let mut tasks = Vec::new();
    let mut outcomes = Vec::new();
    let mut merges: Vec<Result<(), ConversionError>> = Vec::new();
    for id in 0..5 {
        tasks.push(task(id, 1));
        outcomes.push(all_ok(1));
        merges.push(Ok(()));
    }
    let events = engine
        .run_batch_model(&tasks, true, &outcomes, &merges, None, 7, 123)
        .unwrap();
    // one start, one segment pair and one completion per task, then the summary
    assert_eq!(events.len(), 5 * 4 + 1);
    match events.last().unwrap() {
        ChunkProgressUpdate::AllTasksCompleted {
            success_count,
            error_count,
            total_duration_ms,
            results,
        } => {
            assert_eq!(*success_count, 5);
            assert_eq!(*error_count, 0);
            assert_eq!(*total_duration_ms, 123);
            assert_eq!(results.len(), 5);
            assert!(results.iter().all(|r| r.result.success));
        }
        other => panic!("expected the terminal summary, got {:?}", other),
    }
    let stats = engine.get_stats();
    assert_eq!(stats.total_tasks, 5);
    assert_eq!(stats.completed_tasks, 5);
    assert_eq!(stats.successful_tasks, 5);
    assert_eq!(stats.failed_tasks, 0);
    assert_eq!(stats.total_chunks, 5);
    assert_eq!(stats.successful_chunks, 5);
    assert_eq!(stats.start_time_ms, Some(7));
}

#[test]
fn failing_segment_three_fails_the_task_and_names_it() {
    let mut engine = VideoChunkParallelProcessor::new(VideoChunkConfig::default());
    let tasks = vec![task(0, 6)];
    let mut outs = all_ok(6);
    outs[3] = Err(ConversionError::SegmentExecution(String::from("exit status 1")));
    let outcomes = vec![outs];
    let merges: Vec<Result<(), ConversionError>> = vec![Ok(())];
    let events = engine
        .run_batch_model(&tasks, true, &outcomes, &merges, None, 0, 50)
        .unwrap();

    // the other five segments still report individual success
    let mut seg_success = Vec::new();
    for e in &events {
        if let ChunkProgressUpdate::ChunkCompleted { chunk_index, success, .. } = e {
            seg_success.push((*chunk_index, *success));
        }
    }
    assert_eq!(seg_success.len(), 6);
    for (i, ok) in seg_success {
        assert_eq!(ok, i != 3);
    }

    // the task-level failure aggregates and names segment 3
    let result = events
        .iter()
        .find_map(|e| match e {
            ChunkProgressUpdate::TaskCompleted { result, .. } => Some(result.clone()),
            _ => None,
        })
        .unwrap();
    assert!(!result.result.success);
    assert_eq!(
        result.result.error.as_deref(),
        Some("分片 3 转换失败: exit status 1")
    );
    let stats = engine.get_stats();
    assert_eq!(stats.failed_tasks, 1);
    assert_eq!(stats.successful_chunks, 5);
    assert_eq!(stats.failed_chunks, 1);
}

#[test]
fn two_failing_segments_are_joined_in_order() {
    let mut outs = all_ok(4);
    outs[1] = Err(ConversionError::SegmentExecution(String::from("first")));
    outs[3] = Err(ConversionError::Io(String::from("second")));
    let summary = chunk_failure_summary(&outs).unwrap();
    assert_eq!(summary, "分片 1 转换失败: first; 分片 3 转换失败: second");
    let (ok, failed) = count_outcomes(&outs);
    assert_eq!((ok, failed), (2, 2));
}

#[test]
fn merge_failure_fails_a_task_whose_segments_all_succeeded() {
    let t = task(2, 3);
    let outs = all_ok(3);
    let merge: Result<(), ConversionError> = Err(ConversionError::Merge(String::from(
        "concat refused the manifest",
    )));
    let res = process_task_outcome(&t, &outs, &merge);
    assert_eq!(res.task_id, 2);
    assert!(!res.result.success);
    assert_eq!(
        res.result.error.as_deref(),
        Some("合并分片失败: concat refused the manifest")
    );
}

#[test]
fn cancellation_stops_dispatch_after_two_of_ten() {
    let mut engine = VideoChunkParallelProcessor::new(VideoChunkConfig::default());
    let mut tasks = Vec::new();
    let mut outcomes = Vec::new();
    let mut merges: Vec<Result<(), ConversionError>> = Vec::new();
    for id in 0..10 {
        tasks.push(task(id, 1));
        outcomes.push(all_ok(1));
        merges.push(Ok(()));
    }
    let events = engine
        .run_batch_model(&tasks, true, &outcomes, &merges, Some(2), 0, 9)
        .unwrap();
    let started = events
        .iter()
        .filter(|e| matches!(e, ChunkProgressUpdate::TaskStarted { .. }))
        .count();
    assert_eq!(started, 2);
    // the terminal summary still fires, and no task started after the flag
    assert!(matches!(
        events.last().unwrap(),
        ChunkProgressUpdate::AllTasksCompleted { .. }
    ));
    let stats = engine.get_stats();
    assert!(stats.completed_tasks <= 10);
    assert_eq!(stats.completed_tasks, 2);
    assert_eq!(stats.total_tasks, 10);
}

#[test]
fn batch_start_clears_the_cancel_flag() {
    let mut engine = VideoChunkParallelProcessor::new(VideoChunkConfig::default());
    assert!(!engine.cancelled);
    engine.cancel_all_tasks();
    assert!(engine.cancelled);

    // a fresh batch clears the flag at its start, so a cancelled engine
    // can run again
    let tasks = vec![task(0, 1)];
    let outcomes = vec![all_ok(1)];
    let merges: Vec<Result<(), ConversionError>> = vec![Ok(())];
    engine
        .run_batch_model(&tasks, true, &outcomes, &merges, None, 0, 1)
        .unwrap();
    assert!(!engine.cancelled);

    // after a run in which cancellation was observed, it stands raised
    engine
        .run_batch_model(&tasks, true, &outcomes, &merges, Some(0), 0, 1)
        .unwrap();
    assert!(engine.cancelled);
    engine
        .run_batch_model(&tasks, true, &outcomes, &merges, None, 0, 1)
        .unwrap();
    assert!(!engine.cancelled);
}

#[test]
fn event_order_within_a_task_is_start_segments_completion() {
    let mut engine = VideoChunkParallelProcessor::new(VideoChunkConfig::default());
    let tasks = vec![task(0, 2)];
    let outcomes = vec![all_ok(2)];
    let merges: Vec<Result<(), ConversionError>> = vec![Ok(())];
    let events = engine
        .run_batch_model(&tasks, true, &outcomes, &merges, None, 0, 1)
        .unwrap();
    assert_eq!(events.len(), 7);
    assert!(matches!(events[0], ChunkProgressUpdate::TaskStarted { .. }));
    assert!(matches!(
        events[1],
        ChunkProgressUpdate::ChunkStarted { chunk_index: 0, .. }
    ));
    assert!(matches!(
        events[2],
        ChunkProgressUpdate::ChunkCompleted { chunk_index: 0, success: true, .. }
    ));
    assert!(matches!(
        events[3],
        ChunkProgressUpdate::ChunkStarted { chunk_index: 1, .. }
    ));
    assert!(matches!(
        events[4],
        ChunkProgressUpdate::ChunkCompleted { chunk_index: 1, success: true, .. }
    ));
    assert!(matches!(events[5], ChunkProgressUpdate::TaskCompleted { .. }));
    assert!(matches!(
        events[6],
        ChunkProgressUpdate::AllTasksCompleted { .. }
    ));
}
