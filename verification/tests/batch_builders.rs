use zeus_media::chunking::VideoChunkConfig;
use zeus_media::downloader::FFmpegDownloader;
use zeus_media::errors::ConversionError;
use zeus_media::parallel::{run_parallel_batch_model, ConversionTask, ProgressUpdate};
use zeus_media::processor::VideoChunkParallelProcessor;

#[test]
fn planned_tasks_keep_their_file_indices() {
    let engine = VideoChunkParallelProcessor::new(VideoChunkConfig::default());
    let files = vec![
        String::from("a.mp4"),
        String::from("b.mp4"),
        String::from("c.mp4"),
    ];
    let durations = vec![90u32, 900, 30];
    let tasks = engine.create_conversion_tasks("ffmpeg", &files, &durations, "out", 5, 3);
    assert_eq!(tasks.len(), 3);
    assert_eq!(tasks[0].task_id, 0);
    assert_eq!(tasks[1].task_id, 1);
    assert_eq!(tasks[2].task_id, 2);
    assert_eq!(tasks[0].chunks.len(), 1);
    assert_eq!(tasks[1].chunks.len(), 6);
    assert_eq!(tasks[1].final_output_path, "out/b.ogv");
    assert_eq!(tasks[1].chunks[0].output_path, "out/b/b_chunk_000.ogv");
    assert_eq!(tasks[1].video_quality, 5);
    assert_eq!(tasks[1].audio_quality, 3);
}

#[test]
fn unplannable_inputs_are_skipped_not_fatal() {
    let config = VideoChunkConfig {
        chunk_duration: 10,
        overlap_duration: 0,
        max_chunks: 0,
        smart_chunking: false,
        min_chunk_duration: 1,
        fast_mode: false,
    };
    let engine = VideoChunkParallelProcessor::new(config);
    let files = vec![String::from("a.mp4"), String::from("b.mp4")];
    // the first input fits one segment and plans; the second needs
    // splitting under a zero segment cap and is skipped
    let durations = vec![5u32, 50];
    let tasks = engine.create_conversion_tasks("ffmpeg", &files, &durations, "out", 5, 3);
    assert_eq!(tasks.len(), 1);
    assert_eq!(tasks[0].task_id, 0);
}

#[test]
fn whole_file_batch_reports_counts_and_order() {
    let mk = |id: usize| ConversionTask::Audio {
        input_path: format!("dir/file{id}.mp3"),
        output_path: format!("out/file{id}.ogg"),
        task_id: id,
    };
    let tasks = vec![mk(0), mk(1), mk(2)];
    let outcomes: Vec<Result<(), ConversionError>> = vec![
        Ok(()),
        Err(ConversionError::SegmentExecution(String::from("broken"))),
        Ok(()),
    ];
    let durations = vec![10u64, 20, 30];
    let events = run_parallel_batch_model(&tasks, &outcomes, &durations, None, 77);
    assert_eq!(events.len(), 7);
    match &events[0] {
        ProgressUpdate::TaskStarted { task_id, filename, total_tasks } => {
            assert_eq!(*task_id, 0);
            assert_eq!(filename, "file0.mp3");
            assert_eq!(*total_tasks, 3);
        }
        other => panic!("unexpected first event {:?}", other),
    }
    match &events[3] {
        ProgressUpdate::TaskCompleted { result, completed_count, .. } => {
            assert_eq!(*completed_count, 2);
            assert_eq!(result.get_message(), "音频转换失败: broken");
        }
        other => panic!("unexpected event {:?}", other),
    }
    match events.last().unwrap() {
        ProgressUpdate::AllTasksCompleted { success_count, error_count, total_duration_ms, results } => {
            assert_eq!(*success_count, 2);
            assert_eq!(*error_count, 1);
            assert_eq!(*total_duration_ms, 77);
            assert_eq!(results.len(), 3);
        }
        other => panic!("unexpected last event {:?}", other),
    }
}

#[test]
fn whole_file_batch_respects_cancellation() {
    let mk = |id: usize| ConversionTask::Video {
        input_path: format!("v{id}.mp4"),
        output_path: format!("v{id}.ogv"),
        task_id: id,
    };
    let tasks = vec![mk(0), mk(1), mk(2), mk(3)];
    let outcomes: Vec<Result<(), ConversionError>> = vec![Ok(()), Ok(()), Ok(()), Ok(())];
    let durations = vec![1u64, 1, 1, 1];
    let events = run_parallel_batch_model(&tasks, &outcomes, &durations, Some(1), 5);
    assert_eq!(events.len(), 3);
    assert!(matches!(events[0], ProgressUpdate::TaskStarted { .. }));
    assert!(matches!(events[1], ProgressUpdate::TaskCompleted { .. }));
    assert!(matches!(events[2], ProgressUpdate::AllTasksCompleted { .. }));
}

#[test]
fn download_mirrors_share_one_archive() {
    let urls = FFmpegDownloader::get_all_download_urls();
    assert_eq!(urls.len(), 4);
    for url in &urls {
        assert!(url.ends_with("ffmpeg-master-latest-win64-gpl.zip"));
    }
    assert_eq!(FFmpegDownloader::get_best_download_url(), urls[0]);
    let dl = FFmpegDownloader::new("workspace");
    assert_eq!(dl.output_path, "workspace/ffmpeg.exe");
    let info = FFmpegDownloader::get_ffmpeg_info();
    assert_eq!(info.name, "FFmpeg");
    assert_eq!(info.features.len(), 5);
}
