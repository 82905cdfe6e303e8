use zeus_media::audio::{poll_outcome, poll_step, AudioConverter, AudioProcessor, PollStep};
use zeus_media::chunking::{VideoChunk, VideoChunkConfig, VideoChunkConverter};
use zeus_media::errors::ConversionError;
use zeus_media::fileutil::{FileOperations, FileUtils};
use zeus_media::numfmt::{u64_to_string, u64_to_string_pad3};
use zeus_media::paa::PaaConverter;
use zeus_media::parallel::{
    conversion_result_from_outcome, prepare_audio_tasks, prepare_video_tasks, ConversionResult,
    ConversionTask,
};
use zeus_media::probe::{extract_resolution_str, parse_duration_str};
use zeus_media::strings::StringUtils;
use zeus_media::templates::to_config_file_text;
use zeus_media::video::VideoConverter;

#[test]
fn decimal_rendering_is_exact() {
    assert_eq!(u64_to_string(0), "0");
    assert_eq!(u64_to_string(7), "7");
    assert_eq!(u64_to_string(120), "120");
    assert_eq!(u64_to_string(18446744073709551615), "18446744073709551615");
    assert_eq!(u64_to_string_pad3(0), "000");
    assert_eq!(u64_to_string_pad3(42), "042");
    assert_eq!(u64_to_string_pad3(999), "999");
    assert_eq!(u64_to_string_pad3(1234), "1234");
}

#[test]
fn pinyin_names_become_ascii() {
    // relies on the real lookup table: a han name must not pass through
    // unchanged
    assert_eq!(StringUtils::to_ascii_safe_pinyin("拼音"), "pinyin");
    assert_eq!(StringUtils::to_ascii_safe_pinyin("My Song"), "My Song");
    assert_eq!(StringUtils::to_ascii_safe_pinyin(""), "track");
    assert_eq!(StringUtils::to_ascii_safe_pinyin("___"), "track");
    assert_eq!(StringUtils::to_ascii_safe_pinyin("a//b"), "a_b");
}

#[test]
fn kana_and_cyrillic_transliterate() {
    assert_eq!(StringUtils::to_ascii_safe_pinyin("かな"), "kana");
    assert_eq!(StringUtils::to_ascii_safe_pinyin("Москва"), "Moskva");
    assert_eq!(StringUtils::to_ascii_safe_pinyin("café"), "cafe");
}

#[test]
fn safe_filenames_fall_back_to_the_index() {
    assert_eq!(StringUtils::safe_filename_pinyin("song", 3), "song");
    assert_eq!(StringUtils::safe_filename_pinyin("", 3), "track");
    assert_eq!(StringUtils::safe_filename_pinyin("__x__", 3), "x");
    assert_eq!(StringUtils::optimize_filename("__a__b__"), "a_b");
    assert_eq!(StringUtils::optimize_filename("___"), "");
    assert_eq!(
        StringUtils::generate_class_name("song", "Music", 0),
        "Music_song"
    );
    assert_eq!(
        StringUtils::generate_track_name_from_path("dir/歌曲.mp3", 1),
        "gequ"
    );
    assert_eq!(StringUtils::generate_track_name_from_path("dir/", 7), "track_007");
    assert_eq!(
        FileOperations::generate_ascii_filename_pinyin("tune", 0),
        "tune"
    );
}

#[test]
fn extension_checks_ignore_case() {
    assert!(FileUtils::is_supported_audio_file("x/y/tune.OGG"));
    assert!(!FileUtils::is_supported_audio_file("tune.mp3"));
    assert!(!FileUtils::is_supported_audio_file("ogg"));
    assert!(AudioProcessor::is_ogg_file("a.b.ogg"));
}

#[test]
fn duration_stamps_parse_to_seconds() {
    assert_eq!(parse_duration_str("00:00:00"), 0);
    assert_eq!(parse_duration_str("10:00:00.99"), 36000);
    assert_eq!(parse_duration_str("not a stamp"), 0);
    assert_eq!(parse_duration_str("1:2"), 0);
    assert_eq!(parse_duration_str("xx:02:03"), 123);
}

#[test]
fn resolutions_come_from_the_stream_line() {
    assert_eq!(extract_resolution_str("no digits here"), None);
    assert_eq!(
        extract_resolution_str("Video: h264, 640x480, 30 fps"),
        Some((640, 480))
    );
    assert_eq!(extract_resolution_str("1 fps"), None);
    assert_eq!(extract_resolution_str("h264 600p x9"), None);
}

#[test]
fn audio_durations_follow_the_probe() {
    assert_eq!(AudioProcessor::audio_duration_seconds(None, Some(48000)), 180);
    assert_eq!(
        AudioProcessor::audio_duration_seconds(Some(441000), Some(44100)),
        10
    );
    assert_eq!(
        AudioProcessor::audio_duration_seconds(Some(441000), None),
        10
    );
    assert_eq!(
        AudioProcessor::audio_duration_seconds(Some(5), Some(0)),
        u32::MAX
    );
}

#[test]
fn chunk_args_carry_the_time_window() {
    let converter = VideoChunkConverter::new(
        String::from("ffmpeg"),
        VideoChunkConfig::default(),
    );
    let chunk = VideoChunk {
        index: 1,
        input_path: String::from("in.mp4"),
        start_time: 148,
        duration: 152,
        output_path: String::from("out/in_chunk_001.ogv"),
    };
    let args = converter.build_chunk_args(&chunk, 7, 4);
    assert_eq!(args[0], "-i");
    assert_eq!(args[1], "in.mp4");
    assert_eq!(args[2], "-ss");
    assert_eq!(args[3], "148");
    assert_eq!(args[4], "-t");
    assert_eq!(args[5], "152");
    assert_eq!(args[9], "7");
    assert_eq!(args[17], "4");
    assert_eq!(args.last().unwrap(), "out/in_chunk_001.ogv");
    assert_eq!(args[args.len() - 2], "-y");

    let fast_converter = VideoChunkConverter::new(
        String::from("ffmpeg"),
        VideoChunkConfig { fast_mode: true, ..VideoChunkConfig::default() },
    );
    let fast_args = fast_converter.build_chunk_args(&chunk, 7, 4);
    assert_eq!(fast_args[9], "6");
    assert!(fast_args.iter().any(|a| a == "-no-scenecut"));
}

#[test]
fn merge_manifest_lists_segments_in_order() {
    let converter = VideoChunkConverter::new(
        String::from("ffmpeg"),
        VideoChunkConfig::default(),
    );
    let mk = |i: usize, p: &str| VideoChunk {
        index: i,
        input_path: String::from("in.mp4"),
        start_time: 0,
        duration: 1,
        output_path: String::from(p),
    };
    let chunks = vec![mk(0, "a.ogv"), mk(1, "b.ogv")];
    assert!(converter.needs_concat(&chunks));
    assert_eq!(
        converter.merge_manifest(&chunks),
        "file 'a.ogv'\nfile 'b.ogv'\n"
    );
    let one = vec![mk(0, "a.ogv")];
    assert!(!converter.needs_concat(&one));

    let margs = converter.build_merge_args("list.txt", "final.ogv");
    assert_eq!(
        margs,
        vec!["-f", "concat", "-safe", "0", "-i", "list.txt", "-c", "copy", "-y", "final.ogv"]
    );
    let pargs = converter.build_probe_args("in.mp4");
    assert_eq!(pargs, vec!["-i", "in.mp4", "-f", "null", "-"]);
}

#[test]
fn whole_file_args_select_the_qualities() {
    let vc = VideoConverter::new(String::from("ffmpeg"));
    let args = vc.build_ogv_args_default("a.mp4", "a.ogv");
    assert_eq!(args[5], "5");
    assert_eq!(args[13], "3");
    let ac = AudioConverter::new_with_path(String::from("ffmpeg"));
    let aargs = ac.build_ogg_args("a.mp3", "a.ogg");
    assert_eq!(
        aargs,
        vec!["-i", "a.mp3", "-c:a", "libvorbis", "-q:a", "5", "-y", "a.ogg"]
    );
}

#[test]
fn polling_decides_kill_only_on_cancellation() {
    assert!(matches!(poll_step(false, Some(true)), PollStep::Finished));
    assert!(matches!(poll_step(true, Some(false)), PollStep::FailedExit));
    assert!(matches!(poll_step(true, None), PollStep::KillAndCancel));
    assert!(matches!(poll_step(false, None), PollStep::Sleep));
    assert!(poll_outcome(&PollStep::Sleep, "").is_none());
    match poll_outcome(&PollStep::FailedExit, "boom").unwrap() {
        Err(ConversionError::SegmentExecution(m)) => assert_eq!(m, "boom"),
        other => panic!("unexpected outcome {:?}", other),
    }
}

#[test]
fn prepared_tasks_are_indexed_and_named() {
    let files = vec![String::from("dir/один.flac"), String::from("b.wav")];
    let tasks = prepare_audio_tasks(&files, "outdir");
    assert_eq!(tasks.len(), 2);
    assert_eq!(tasks[0].task_id(), 0);
    assert_eq!(tasks[1].task_id(), 1);
    match &tasks[0] {
        ConversionTask::Audio { output_path, .. } => {
            assert_eq!(output_path, "outdir/odin.ogg")
        }
        _ => panic!("expected an audio task"),
    }
    let vtasks = prepare_video_tasks(&files, "outdir");
    match &vtasks[1] {
        ConversionTask::Video { output_path, .. } => {
            assert_eq!(output_path, "outdir/b.ogv")
        }
        _ => panic!("expected a video task"),
    }
}

#[test]
fn whole_file_results_carry_kind_and_text() {
    let t = ConversionTask::Audio {
        input_path: String::from("a.mp3"),
        output_path: String::from("a.ogg"),
        task_id: 4,
    };
    let ok = conversion_result_from_outcome(&t, &Ok(()), 250);
    match ok {
        ConversionResult::Success { task_id, message, duration_ms, .. } => {
            assert_eq!(task_id, 4);
            assert_eq!(message, "音频转换成功");
            assert_eq!(duration_ms, 250);
        }
        other => panic!("unexpected result {:?}", other),
    }
    let failed = conversion_result_from_outcome(
        &t,
        &Err(ConversionError::SegmentExecution(String::from("bad input"))),
        0,
    );
    assert_eq!(failed.get_message(), "音频转换失败: bad input");
}

#[test]
fn powers_of_two_round_up() {
    assert_eq!(PaaConverter::next_power_of_two(0), 1);
    assert_eq!(PaaConverter::next_power_of_two(1), 1);
    assert_eq!(PaaConverter::next_power_of_two(3), 4);
    assert_eq!(PaaConverter::next_power_of_two(17), 32);
    assert_eq!(PaaConverter::next_power_of_two(1024), 1024);
    assert_eq!(PaaConverter::next_power_of_two(0x8000_0000), 0x8000_0000);
}

#[test]
fn long_output_paths_lose_stem_characters_only() {
    assert_eq!(StringUtils::ensure_path_length("dir/name.ogv", 260), "dir/name.ogv");
    assert_eq!(StringUtils::ensure_path_length("dir/longname.ogv", 12), "dir/long.ogv");
    assert_eq!(StringUtils::ensure_path_length("dir/longname.ogv", 9), "dir/l.ogv");
    // no room for any stem character: the path stays as it is
    assert_eq!(StringUtils::ensure_path_length("dir/longname.ogv", 8), "dir/longname.ogv");
    assert_eq!(StringUtils::ensure_path_length("stemonly", 4), "stem");
}

#[test]
fn exotic_whitespace_transliterates_to_a_space() {
    assert_eq!(StringUtils::to_ascii_safe_pinyin("a\u{2003}b"), "a b");
    assert_eq!(StringUtils::to_ascii_safe_pinyin("a\u{a0}\u{2028}b"), "a b");
}

#[test]
fn config_files_get_windows_line_endings() {
    assert_eq!(to_config_file_text("a\nb"), "a\r\nb\r\n");
    assert_eq!(to_config_file_text("a\r\n"), "a\r\r\n");
    assert_eq!(to_config_file_text(""), "\r\n");
}

#[test]
fn error_messages_pass_through() {
    let e = ConversionError::Probe(String::from("no duration"));
    assert_eq!(e.message(), "no duration");
    assert!(!e.is_spawn());
    assert!(ConversionError::Spawn(String::from("missing")).is_spawn());
    for e in [
        ConversionError::Plan(String::from("m")),
        ConversionError::Merge(String::from("m")),
        ConversionError::Io(String::from("m")),
        ConversionError::Cancelled(String::from("m")),
        ConversionError::SegmentExecution(String::from("m")),
    ] {
        assert_eq!(e.message(), "m");
    }
}

#[test]
fn pool_sizes_follow_the_rules() {
    assert_eq!(zeus_media::resources::segment_pool_size(0), 2);
    assert_eq!(zeus_media::resources::segment_pool_size(6), 3);
    assert_eq!(zeus_media::resources::segment_pool_size(40), 8);
    assert_eq!(zeus_media::resources::pool_size_from(1, 2, 8), 2);
    assert_eq!(zeus_media::resources::pool_size_from(3, 2, 8), 6);
    assert_eq!(zeus_media::resources::pool_size_from(64, 2, 12), 12);
    let cpu_heavy = zeus_media::resources::calculate_optimal_threads();
    assert!((2..=12).contains(&cpu_heavy));
    let io_heavy = zeus_media::resources::task_pool_size();
    assert!((2..=8).contains(&io_heavy));
}
