//! Data models of the package builder: tracks, video files, project
//! settings and task bookkeeping.

use vstd::prelude::*;
use crate::numfmt::push_char;
use crate::text::{spec_is_ascii_alnum, is_ascii_alnum, str_to_chars, chars_to_string};

verus! {

/// The display name of an entry: the bare name, or `[tag] name` when a
/// tag is set.
pub open spec fn spec_display_name(tag: Seq<char>, name: Seq<char>) -> Seq<char> {
    if tag.len() == 0 {
        name
    } else {
        seq!['['] + tag + seq![']', ' '] + name
    }
}

fn display_with_tag(tag: &String, name: &String) -> (r: String)
    ensures
        r@ == spec_display_name(tag@, name@),
{
    if tag.unicode_len() == 0 {
        let r = name.clone();
        r
    } else {
        let mut r = String::new();
        push_char(&mut r, '[');
        r.append(tag.as_str());
        push_char(&mut r, ']');
        push_char(&mut r, ' ');
        r.append(name.as_str());
        proof {
            assert(r@ =~= spec_display_name(tag@, name@));
        }
        r
    }
}

/// One music track of a project.
#[derive(Debug, Clone)]
pub struct Track {
    /// The name shown in game.
    pub track_name: String,
    /// The configuration class name.
    pub class_name: String,
    /// An optional tag shown as `[tag]` before the name.
    pub tag: String,
    /// Where the audio file lies.
    pub path: String,
    /// Seconds the track runs.
    pub duration: u32,
    /// The decibel adjustment.
    pub decibels: i32,
    /// The duration as loaded, for resetting.
    pub original_duration: u32,
    /// The decibels as loaded, for resetting.
    pub original_decibels: i32,
}

impl Track {
    /// A fresh track with zeroed duration and decibels and no tag.
    pub fn new(path: String, track_name: String, class_name: String) -> (r: Self)
        ensures
            r.path == path,
            r.track_name == track_name,
            r.class_name == class_name,
            r.tag@.len() == 0,
            r.duration == 0,
            r.decibels == 0,
            r.original_duration == 0,
            r.original_decibels == 0,
    {
        Track {
            track_name,
            class_name,
            tag: String::new(),
            path,
            duration: 0,
            decibels: 0,
            original_duration: 0,
            original_decibels: 0,
        }
    }

    /// The name shown in lists: `[tag] name` when a tag is set.
    pub fn display_name(&self) -> (r: String)
        ensures
            r@ == spec_display_name(self.tag@, self.track_name@),
    {
        display_with_tag(&self.tag, &self.track_name)
    }

    /// Books the values read from the audio file, as both the current
    /// and the reset-to values.
    pub fn set_original_values(&mut self, duration: u32, decibels: i32)
        ensures
            final(self).duration == duration,
            final(self).decibels == decibels,
            final(self).original_duration == duration,
            final(self).original_decibels == decibels,
            final(self).track_name == old(self).track_name,
            final(self).class_name == old(self).class_name,
            final(self).tag == old(self).tag,
            final(self).path == old(self).path,
    {
        self.original_duration = duration;
        self.original_decibels = decibels;
        self.duration = duration;
        self.decibels = decibels;
    }

    /// Puts duration and decibels back to the values as loaded.
    pub fn reset_to_default(&mut self)
        ensures
            final(self).duration == old(self).original_duration,
            final(self).decibels == old(self).original_decibels,
            final(self).original_duration == old(self).original_duration,
            final(self).original_decibels == old(self).original_decibels,
            final(self).track_name == old(self).track_name,
            final(self).class_name == old(self).class_name,
            final(self).tag == old(self).tag,
            final(self).path == old(self).path,
    {
        self.duration = self.original_duration;
        self.decibels = self.original_decibels;
    }

    /// Whether duration or decibels differ from the values as loaded.
    pub fn is_modified(&self) -> (r: bool)
        ensures
            r == (self.duration != self.original_duration || self.decibels
                != self.original_decibels),
    {
        self.duration != self.original_duration || self.decibels != self.original_decibels
    }
}

/// What kind of package a project builds.
#[derive(Debug, Clone, PartialEq, Eq, Structural)]
pub enum ModType {
    Music,
    Video,
}

/// One video file of a project.
#[derive(Debug, Clone)]
pub struct VideoFile {
    /// The name shown in game.
    pub video_name: String,
    /// The configuration class name.
    pub class_name: String,
    /// An optional tag shown as `[tag]` before the name.
    pub tag: String,
    /// Where the video file lies.
    pub path: String,
    /// Seconds the video runs.
    pub duration: u32,
    /// Width and height in pixels.
    pub width: u32,
    /// Height in pixels.
    pub height: u32,
    /// Size of the file in bytes.
    pub file_size: u64,
}

impl VideoFile {
    /// A fresh video entry with zeroed metadata and no tag.
    pub fn new(path: String, video_name: String, class_name: String) -> (r: Self)
        ensures
            r.path == path,
            r.video_name == video_name,
            r.class_name == class_name,
            r.tag@.len() == 0,
            r.duration == 0,
            r.width == 0,
            r.height == 0,
            r.file_size == 0,
    {
        VideoFile {
            video_name,
            class_name,
            tag: String::new(),
            path,
            duration: 0,
            width: 0,
            height: 0,
            file_size: 0,
        }
    }

    /// The name shown in lists: `[tag] name` when a tag is set.
    pub fn display_name(&self) -> (r: String)
        ensures
            r@ == spec_display_name(self.tag@, self.video_name@),
    {
        display_with_tag(&self.tag, &self.video_name)
    }

    /// Books the values read from the video file.
    pub fn set_video_info(&mut self, duration: u32, resolution: (u32, u32), file_size: u64)
        ensures
            final(self).duration == duration,
            final(self).width == resolution.0,
            final(self).height == resolution.1,
            final(self).file_size == file_size,
            final(self).video_name == old(self).video_name,
            final(self).class_name == old(self).class_name,
            final(self).tag == old(self).tag,
            final(self).path == old(self).path,
    {
        self.duration = duration;
        self.width = resolution.0;
        self.height = resolution.1;
        self.file_size = file_size;
    }
}

/// A project's settings.
#[derive(Debug, Clone)]
pub struct ProjectSettings {
    /// The package's name.
    pub mod_name: String,
    /// The author shown in the package.
    pub author_name: String,
    /// An optional logo file.
    pub logo_path: Option<String>,
    /// Whether the bundled default logo is used.
    pub use_default_logo: bool,
    /// The configuration class name derived from the package name.
    pub class_name: String,
    /// What kind of package the project builds.
    pub mod_type: ModType,
}

impl Default for ProjectSettings {
    /// A fresh music project with placeholder names.
    fn default() -> (r: Self)
        ensures
            r.mod_name@ == "New Music Mod"@,
            r.author_name@ == "Your username"@,
            r.logo_path is None,
            r.use_default_logo,
            r.class_name@ == "MyMusicClass"@,
            r.mod_type == ModType::Music,
    {
        ProjectSettings {
            mod_name: String::from_str("New Music Mod"),
            author_name: String::from_str("Your username"),
            logo_path: None,
            use_default_logo: true,
            class_name: String::from_str("MyMusicClass"),
            mod_type: ModType::Music,
        }
    }
}

/// A name mapped character by character: letters and digits stay,
/// everything else becomes an underscore.
pub open spec fn spec_classified(s: Seq<char>) -> Seq<char> {
    Seq::new(s.len(), |i: int| if spec_is_ascii_alnum(s[i]) {
        s[i]
    } else {
        '_'
    })
}

/// A name mapped character by character: letters, digits, underscores
/// and hyphens stay, everything else becomes an underscore.
pub open spec fn spec_folder_name(s: Seq<char>) -> Seq<char> {
    Seq::new(s.len(), |i: int| if spec_is_ascii_alnum(s[i]) || s[i] == '_' || s[i] == '-' {
        s[i]
    } else {
        '_'
    })
}

/// Whether every character of the sequence is an underscore.
pub open spec fn spec_only_underscores(s: Seq<char>) -> bool {
    forall|i: int| 0 <= i < s.len() ==> s[i] == '_'
}

impl ProjectSettings {
    /// Re-derives the class name from the package name: letters and
    /// digits stay, everything else becomes an underscore.
    pub fn update_class_name(&mut self)
        ensures
            final(self).class_name@ == spec_classified(old(self).mod_name@),
            final(self).mod_name == old(self).mod_name,
            final(self).author_name == old(self).author_name,
            final(self).logo_path == old(self).logo_path,
            final(self).use_default_logo == old(self).use_default_logo,
            final(self).mod_type == old(self).mod_type,
    {
        let cs = str_to_chars(self.mod_name.as_str());
        let mut out: Vec<char> = Vec::new();
        let mut i: usize = 0;
        while i < cs.len()
            invariant
                i <= cs@.len(),
                out@ == spec_classified(cs@).take(i as int),
            decreases cs@.len() - i,
        {
            if is_ascii_alnum(cs[i]) {
                out.push(cs[i]);
            } else {
                out.push('_');
            }
            i = i + 1;
            proof {
                assert(out@ =~= spec_classified(cs@).take(i as int));
            }
        }
        proof {
            assert(spec_classified(cs@).take(cs@.len() as int) =~= spec_classified(cs@));
        }
        self.class_name = chars_to_string(&out);
    }

    /// Puts the default names for the project's package kind back.
    pub fn set_default_name_for_mod_type(&mut self)
        ensures
            old(self).mod_type == ModType::Music ==> final(self).mod_name@ == "New Music Mod"@
                && final(self).class_name@ == "MyMusicClass"@,
            old(self).mod_type == ModType::Video ==> final(self).mod_name@ == "New Video Mod"@
                && final(self).class_name@ == "MyVideoClass"@,
            final(self).mod_type == old(self).mod_type,
            final(self).author_name == old(self).author_name,
            final(self).logo_path == old(self).logo_path,
            final(self).use_default_logo == old(self).use_default_logo,
    {
        match self.mod_type {
            ModType::Music => {
                self.mod_name = String::from_str("New Music Mod");
                self.class_name = String::from_str("MyMusicClass");
            },
            ModType::Video => {
                self.mod_name = String::from_str("New Video Mod");
                self.class_name = String::from_str("MyVideoClass");
            },
        }
    }

    /// The package name as a folder name: letters, digits, underscores
    /// and hyphens stay, everything else becomes an underscore; a name
    /// with nothing meaningful left falls back to the kind's default.
    pub fn mod_name_no_spaces(&self) -> (r: String)
        ensures
            ({
                let mapped = spec_folder_name(self.mod_name@);
                if mapped.len() == 0 || spec_only_underscores(mapped) {
                    (self.mod_type == ModType::Music ==> r@ == "NewMusicMod"@)
                        && (self.mod_type == ModType::Video ==> r@ == "NewVideoMod"@)
                } else {
                    r@ == mapped
                }
            }),
    {
        let cs = str_to_chars(self.mod_name.as_str());
        let mut out: Vec<char> = Vec::new();
        let mut i: usize = 0;
        let mut meaningful = false;
        while i < cs.len()
            invariant
                i <= cs@.len(),
                out@ == spec_folder_name(cs@).take(i as int),
                meaningful == exists|k: int| 0 <= k < i && spec_folder_name(cs@)[k] != '_',
            decreases cs@.len() - i,
        {
            let c = cs[i];
            if is_ascii_alnum(c) || c == '_' || c == '-' {
                out.push(c);
                if c != '_' {
                    meaningful = true;
                    proof {
                        assert(spec_folder_name(cs@)[i as int] != '_');
                    }
                } else {
                    proof {
                        assert(spec_folder_name(cs@)[i as int] == '_');
                    }
                }
            } else {
                out.push('_');
                proof {
                    assert(spec_folder_name(cs@)[i as int] == '_');
                }
            }
            i = i + 1;
            proof {
                assert(out@ =~= spec_folder_name(cs@).take(i as int));
            }
        }
        proof {
            assert(spec_folder_name(cs@).take(cs@.len() as int) =~= spec_folder_name(cs@));
        }
        if out.len() == 0 || !meaningful {
            match self.mod_type {
                ModType::Music => String::from_str("NewMusicMod"),
                ModType::Video => String::from_str("NewVideoMod"),
            }
        } else {
            chars_to_string(&out)
        }
    }
}

/// Export-time options.
#[derive(Debug, Clone)]
pub struct ExportSettings {
    /// Whether tags are prepended to track names.
    pub append_tags: bool,
    /// Whether the bundled default logo is used.
    pub use_default_logo: bool,
}

impl Default for ExportSettings {
    /// Tags on, default logo on.
    fn default() -> (r: Self)
        ensures
            r.append_tags,
            r.use_default_logo,
    {
        ExportSettings { append_tags: true, use_default_logo: true }
    }
}

/// The kinds of long-running work the application runs.
#[derive(Debug, Clone, PartialEq, Eq, Hash, Structural)]
pub enum TaskType {
    AudioDecrypt,
    PaaConvert,
    ModExport,
    AudioLoad,
    AudioConvert,
    VideoConvert,
    VideoModExport,
}

/// Where one long-running piece of work stands.
#[derive(Debug, Clone)]
pub enum TaskStatus {
    Pending,
    Running,
    Completed,
    Failed(String),
    Cancelled,
}

} // verus!
