use zeus_media::models::{ExportSettings, ModType, ProjectSettings, Track, VideoFile};
use zeus_media::templates::build_config_template_data;

#[test]
fn tracks_remember_their_loaded_values() {
    let mut track = Track::new(
        String::from("music/song.ogg"),
        String::from("Song"),
        String::from("MyMusicClass"),
    );
    assert_eq!(track.display_name(), "Song");
    track.tag = String::from("Loud");
    assert_eq!(track.display_name(), "[Loud] Song");

    track.set_original_values(240, -3);
    assert!(!track.is_modified());
    track.duration = 250;
    track.decibels = 1;
    assert!(track.is_modified());
    track.reset_to_default();
    assert_eq!(track.duration, 240);
    assert_eq!(track.decibels, -3);
    assert!(!track.is_modified());
}

#[test]
fn video_files_record_probe_results() {
    let mut video = VideoFile::new(
        String::from("v.mp4"),
        String::from("Clip"),
        String::from("MyVideoClass"),
    );
    assert_eq!(video.display_name(), "Clip");
    video.set_video_info(120, (1920, 1080), 4096);
    assert_eq!(video.duration, 120);
    assert_eq!(video.width, 1920);
    assert_eq!(video.height, 1080);
    assert_eq!(video.file_size, 4096);
}

#[test]
fn project_names_map_to_class_and_folder_names() {
    let mut project = ProjectSettings::default();
    assert_eq!(project.mod_name, "New Music Mod");
    assert_eq!(project.class_name, "MyMusicClass");

    project.mod_name = String::from("Zeus: Best Hits!");
    project.update_class_name();
    assert_eq!(project.class_name, "Zeus__Best_Hits_");
    assert_eq!(project.mod_name_no_spaces(), "Zeus__Best_Hits_");

    project.mod_name = String::from("!!!");
    assert_eq!(project.mod_name_no_spaces(), "NewMusicMod");

    project.mod_type = ModType::Video;
    project.set_default_name_for_mod_type();
    assert_eq!(project.mod_name, "New Video Mod");
    assert_eq!(project.class_name, "MyVideoClass");
    assert_eq!(project.mod_name_no_spaces(), "New_Video_Mod");
}

#[test]
fn template_data_is_ascii_sanitized() {
    let mut project = ProjectSettings::default();
    project.mod_name = String::from("Mod änd 模组");
    project.author_name = String::from("Åuthor");
    let data = build_config_template_data(&project);
    assert_eq!(data.mod_name, "Mod _nd __");
    assert_eq!(data.author_name, "_uthor");
    assert_eq!(data.class_name, "MyMusicClass");
}

#[test]
fn export_settings_default_to_tags_and_logo() {
    let settings = ExportSettings::default();
    assert!(settings.append_tags);
    assert!(settings.use_default_logo);
}
