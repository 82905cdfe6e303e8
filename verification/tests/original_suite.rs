use zeus_media::audio::AudioProcessor;
use zeus_media::parallel::ParallelConfig;
use zeus_media::plugin::{FFmpegConfig, MirrorSource};
use zeus_media::resources::{DiskIOOptimizer, SmartThreadPool};
use zeus_media::templates::ConfigTemplateData;
use zeus_media::models::ProjectSettings;
use zeus_media::video::VideoConverter;

#[test]
fn test_is_ogg_file() {
    assert!(AudioProcessor::is_ogg_file("test.ogg"));
    assert!(AudioProcessor::is_ogg_file("test.OGG"));
    assert!(!AudioProcessor::is_ogg_file("test.mp3"));
    assert!(!AudioProcessor::is_ogg_file("test"));
}

#[test]
fn test_ffmpeg_config_default() {
    let config = FFmpegConfig::default(String::from("test.json"));
    assert_eq!(config.auto_download, true);
    assert_eq!(config.mirror_source, MirrorSource::GitHub);
    assert!(config.ffmpeg_path.is_none());
}

#[test]
fn test_mirror_source_enum() {
    assert_eq!(MirrorSource::default(), MirrorSource::GitHub);
    assert_eq!(MirrorSource::GitHub, MirrorSource::GitHub);
    assert_eq!(MirrorSource::GitHubProxy, MirrorSource::GitHubProxy);
    assert_eq!(
        MirrorSource::Custom("test".to_string()),
        MirrorSource::Custom("test".to_string())
    );
}

#[test]
fn test_parallel_config_default() {
    let config = ParallelConfig::default();
    assert!(config.max_threads >= 2);
    assert!(config.max_threads <= 12);
    assert_eq!(config.queue_size, 1000);
    assert!(config.smart_scheduling);
}

#[test]
fn test_parallel_config_adjustment() {
    let mut config = ParallelConfig::default();
    let original_threads = config.max_threads;

    config.adjust_for_file_size(10, 150);
    assert!(config.max_threads <= original_threads);

    config.max_threads = original_threads;
    config.adjust_for_file_size(100, 5);
    assert!(config.max_threads >= original_threads);
}

#[test]
fn test_smart_thread_pool() {
    let mut pool = SmartThreadPool::new(4);
    assert_eq!(pool.get_max_threads(), 4);
    assert_eq!(pool.get_active_threads(), 0);

    pool.thread_start(1);
    assert_eq!(pool.get_active_threads(), 1);

    pool.thread_finish(1, 1000);
    assert_eq!(pool.get_active_threads(), 0);
}

#[test]
fn test_disk_io_optimizer() {
    let optimizer = DiskIOOptimizer::new();

    assert!(optimizer.get_write_buffer_size() > 0);
    assert!(optimizer.get_read_buffer_size() > 0);
    assert!(optimizer.get_concurrent_io_ops() > 0);
}

#[test]
fn test_config_template_data() {
    let project = ProjectSettings::default();
    let data = ConfigTemplateData {
        mod_name_no_spaces: project.mod_name_no_spaces(),
        mod_name: project.mod_name.clone(),
        author_name: project.author_name.clone(),
        class_name: project.class_name.clone(),
    };
    assert!(!data.mod_name.is_empty());
}

#[test]
fn test_parse_duration() {
    let converter = VideoConverter::new_with_path(String::from("ffmpeg"));

    assert_eq!(converter.parse_duration("01:30:45"), 5445);
    assert_eq!(converter.parse_duration("02:15:30.500"), 8130);
    assert_eq!(converter.parse_duration("00:05:20"), 320);
}

#[test]
fn test_extract_resolution() {
    let converter = VideoConverter::new_with_path(String::from("ffmpeg"));

    let stream_line = "Stream #0:0: Video: h264, yuv420p, 1920x1080, 25 fps";
    assert_eq!(converter.extract_resolution(stream_line), Some((1920, 1080)));

    let stream_line2 = "Stream #0:0: Video: mpeg4, yuv420p, 1280x720, 30 fps";
    assert_eq!(converter.extract_resolution(stream_line2), Some((1280, 720)));
}

#[test]
fn test_is_supported_video_format() {
    let converter = VideoConverter::new_with_path(String::from("ffmpeg"));

    assert!(converter.is_supported_video_format("test.mp4"));
    assert!(converter.is_supported_video_format("test.avi"));
    assert!(converter.is_supported_video_format("test.ogv"));
    assert!(!converter.is_supported_video_format("test.txt"));
    assert!(!converter.is_supported_video_format("test"));
}
