//! The transcoder plugin's configuration and status records.  Locating,
//! testing and downloading the binary is process and network work that
//! lives in the surrounding application; the records and their defaults
//! are here.

use vstd::prelude::*;

verus! {

/// Where the transcoder download comes from.
#[derive(Debug, Clone)]
pub enum MirrorSource {
    GitHub,
    GitHubProxy,
    Custom(String),
}

impl PartialEq for MirrorSource {
    /// Two sources are equal when they are the same variant and, for
    /// custom sources, carry the same address.
    fn eq(&self, other: &Self) -> (r: bool) {
        match (self, other) {
            (MirrorSource::GitHub, MirrorSource::GitHub) => true,
            (MirrorSource::GitHubProxy, MirrorSource::GitHubProxy) => true,
            (MirrorSource::Custom(a), MirrorSource::Custom(b)) => a.eq(b),
            _ => false,
        }
    }
}

impl vstd::std_specs::cmp::PartialEqSpecImpl for MirrorSource {
    open spec fn obeys_eq_spec() -> bool {
        true
    }

    open spec fn eq_spec(&self, other: &Self) -> bool {
        match (self, other) {
            (MirrorSource::GitHub, MirrorSource::GitHub) => true,
            (MirrorSource::GitHubProxy, MirrorSource::GitHubProxy) => true,
            (MirrorSource::Custom(a), MirrorSource::Custom(b)) => a@ == b@,
            _ => false,
        }
    }
}

impl Eq for MirrorSource {

}

impl Default for MirrorSource {
    /// Downloads come from the main site unless configured otherwise.
    fn default() -> (r: Self)
        ensures
            r is GitHub,
    {
        MirrorSource::GitHub
    }
}

/// The plugin's persisted configuration.
#[derive(Debug, Clone)]
pub struct FFmpegConfig {
    /// Where the transcoder binary lies, once known.
    pub ffmpeg_path: Option<String>,
    /// Where this configuration is persisted.
    pub config_path: String,
    /// Whether a missing binary is downloaded without asking.
    pub auto_download: bool,
    /// Where the download comes from.
    pub mirror_source: MirrorSource,
}

impl FFmpegConfig {
    /// The default configuration persisted at the given path: no binary
    /// known yet, downloads allowed, main download site.
    pub fn default(config_path: String) -> (r: Self)
        ensures
            r.ffmpeg_path is None,
            r.config_path == config_path,
            r.auto_download,
            r.mirror_source is GitHub,
    {
        FFmpegConfig {
            ffmpeg_path: None,
            config_path,
            auto_download: true,
            mirror_source: MirrorSource::GitHub,
        }
    }
}

/// What a status query reports of the transcoder plugin.
#[derive(Debug, Clone)]
pub struct FFmpegStatus {
    /// Whether a working binary was found.
    pub available: bool,
    /// Where it lies, when one was found.
    pub path: Option<String>,
    /// The version line it reported, when one was found.
    pub version: Option<String>,
    /// Where the configuration is persisted.
    pub config_path: String,
}

} // verus!
