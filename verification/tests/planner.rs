use zeus_media::chunking::{VideoChunkConfig, VideoChunkConverter};
use zeus_media::video::VideoInfo;

fn default_converter() -> VideoChunkConverter {
    VideoChunkConverter::new(String::from("ffmpeg"), VideoChunkConfig::default())
}

#[test]
fn short_input_plans_one_fast_segment() {
    let mut config = VideoChunkConfig::default();
    let info = VideoInfo { duration: 90, resolution: (0, 0) };
    config.adjust_for_video(&info);
    assert!(config.fast_mode);
    assert_eq!(config.max_chunks, 1);
    assert_eq!(config.calculate_chunk_count(90), 1);

    let converter = default_converter();
    let chunks = converter.create_chunk_plan("clip.mp4", "out", 90).unwrap();
    assert_eq!(chunks.len(), 1);
    assert_eq!(chunks[0].index, 0);
    assert_eq!(chunks[0].start_time, 0);
    assert_eq!(chunks[0].duration, 90);
}

#[test]
fn bracket_counts_match_duration() {
    let converter = default_converter();
    assert_eq!(converter.create_chunk_plan("a.mp4", "out", 121).unwrap().len(), 3);
    assert_eq!(converter.create_chunk_plan("a.mp4", "out", 600).unwrap().len(), 3);
    assert_eq!(converter.create_chunk_plan("a.mp4", "out", 601).unwrap().len(), 6);
    assert_eq!(converter.create_chunk_plan("a.mp4", "out", 1800).unwrap().len(), 6);
    assert_eq!(converter.create_chunk_plan("a.mp4", "out", 1801).unwrap().len(), 12);
    assert_eq!(converter.create_chunk_plan("a.mp4", "out", 7200).unwrap().len(), 12);
}

#[test]
fn plan_covers_input_exactly() {
    let converter = default_converter();
    for duration in [90u32, 300, 900, 3600, 0] {
        let chunks = converter.create_chunk_plan("film.mkv", "out", duration).unwrap();
        assert!(!chunks.is_empty());
        for (i, c) in chunks.iter().enumerate() {
            assert_eq!(c.index, i);
        }
        assert_eq!(chunks[0].start_time, 0);
        let last = chunks.last().unwrap();
        assert_eq!(last.start_time + last.duration, duration);
        for w in chunks.windows(2) {
            assert!(w[1].start_time <= w[0].start_time + w[0].duration);
        }
    }
}

#[test]
fn nine_hundred_seconds_plans_six_overlapping_segments() {
    let converter = default_converter();
    let chunks = converter.create_chunk_plan("talk.mp4", "out", 900).unwrap();
    assert_eq!(chunks.len(), 6);
    // effective length is 150; later segments start one overlap early
    assert_eq!(chunks[0].start_time, 0);
    assert_eq!(chunks[0].duration, 152);
    assert_eq!(chunks[1].start_time, 148);
    assert_eq!(chunks[1].duration, 152);
    assert_eq!(chunks[5].start_time, 748);
    assert_eq!(chunks[5].duration, 152);
    // the planned spans overcount the input by one overlap per segment
    let total: u32 = chunks.iter().map(|c| c.duration).sum();
    assert_eq!(total, 900 + 6 * 2);
}

#[test]
fn zero_duration_degrades_to_single_segment() {
    let converter = default_converter();
    let chunks = converter.create_chunk_plan("broken.avi", "out", 0).unwrap();
    assert_eq!(chunks.len(), 1);
    assert_eq!(chunks[0].start_time, 0);
    assert_eq!(chunks[0].duration, 0);
}

#[test]
fn zero_segment_length_is_a_plan_error() {
    let config = VideoChunkConfig {
        chunk_duration: 0,
        overlap_duration: 2,
        max_chunks: 16,
        smart_chunking: false,
        min_chunk_duration: 30,
        fast_mode: false,
    };
    let converter = VideoChunkConverter::new(String::from("ffmpeg"), config);
    let err = converter.create_chunk_plan("a.mp4", "out", 100).unwrap_err();
    assert!(matches!(err, zeus_media::errors::ConversionError::Plan(_)));
}

#[test]
fn chunk_outputs_are_named_by_index() {
    let converter = default_converter();
    let chunks = converter.create_chunk_plan("movie night.mp4", "out", 900).unwrap();
    assert_eq!(chunks[0].output_path, "out/movie night_chunk_000.ogv");
    assert_eq!(chunks[5].output_path, "out/movie night_chunk_005.ogv");
    assert_eq!(chunks[2].input_path, "movie night.mp4");
}

#[test]
fn smart_chunking_off_keeps_configured_length() {
    let config = VideoChunkConfig {
        chunk_duration: 100,
        overlap_duration: 0,
        max_chunks: 16,
        smart_chunking: false,
        min_chunk_duration: 1,
        fast_mode: false,
    };
    assert_eq!(config.calculate_chunk_count(1000), 10);
    let mut adjusted = config.clone();
    adjusted.adjust_for_video(&VideoInfo { duration: 1000, resolution: (0, 0) });
    assert_eq!(adjusted.chunk_duration, 100);
}

#[test]
fn chunk_count_is_capped_by_max_chunks() {
    let config = VideoChunkConfig {
        chunk_duration: 10,
        overlap_duration: 0,
        max_chunks: 4,
        smart_chunking: false,
        min_chunk_duration: 1,
        fast_mode: false,
    };
    assert_eq!(config.calculate_chunk_count(1000), 4);
    assert_eq!(config.calculate_chunk_count(10), 1);
    assert_eq!(config.calculate_chunk_count(11), 2);
}
