//! The transcoder download plan: the ordered mirror list and the
//! description shown before downloading.  The network transfer and the
//! archive unpacking live in the surrounding application.

use vstd::prelude::*;
use crate::chunking::spec_joined;
use crate::paths::join_path;

verus! {

/// A description of the downloadable transcoder build.
#[derive(Debug, Clone)]
pub struct FFmpegInfo {
    /// The tool's name.
    pub name: String,
    /// The build line offered for download.
    pub version: String,
    /// What the tool does.
    pub description: String,
    /// The download's approximate size.
    pub download_size: String,
    /// Selling points shown in the download dialog.
    pub features: Vec<String>,
}

/// The downloader's plan: which mirror to pull from and where the binary
/// lands.
#[derive(Debug, Clone)]
pub struct FFmpegDownloader {
    /// The mirror the download starts with.
    pub download_url: String,
    /// Where the unpacked binary is written.
    pub output_path: String,
}

/// The archive every mirror serves.
pub open spec fn spec_build_archive() -> Seq<char> {
    "https://github.com/BtbN/FFmpeg-Builds/releases/download/latest/ffmpeg-master-latest-win64-gpl.zip"@
}

impl FFmpegDownloader {
    /// The ordered mirror list, most reliable first: two proxy mirrors
    /// around the official source and one more as the last resort, all
    /// serving the same build archive.
    pub fn get_all_download_urls() -> (r: Vec<String>)
        ensures
            r@.len() == 4,
            r@[0]@ == "https://ghproxy.net/"@ + spec_build_archive(),
            r@[1]@ == spec_build_archive(),
            r@[2]@ == "https://ghproxy.com/"@ + spec_build_archive(),
            r@[3]@ == "https://mirror.ghproxy.com/"@ + spec_build_archive(),
    {
        let archive =
            "https://github.com/BtbN/FFmpeg-Builds/releases/download/latest/ffmpeg-master-latest-win64-gpl.zip";
        let mut v: Vec<String> = Vec::new();
        let mut first = String::from_str("https://ghproxy.net/");
        first.append(archive);
        v.push(first);
        v.push(String::from_str(archive));
        let mut third = String::from_str("https://ghproxy.com/");
        third.append(archive);
        v.push(third);
        let mut fourth = String::from_str("https://mirror.ghproxy.com/");
        fourth.append(archive);
        v.push(fourth);
        v
    }

    /// The mirror a download starts with: the head of the ordered list.
    pub fn get_best_download_url() -> (r: String)
        ensures
            r@ == "https://ghproxy.net/"@ + spec_build_archive(),
    {
        let urls = Self::get_all_download_urls();
        urls[0].clone()
    }

    /// A downloader that pulls from the best mirror into the given
    /// directory.
    pub fn new(output_dir: &str) -> (r: Self)
        ensures
            r.download_url@ == "https://ghproxy.net/"@ + spec_build_archive(),
            r.output_path@ == spec_joined(output_dir@, "ffmpeg.exe"@),
    {
        FFmpegDownloader {
            download_url: Self::get_best_download_url(),
            output_path: join_path(output_dir, "ffmpeg.exe"),
        }
    }

    /// The description of the downloadable build shown to the user.
    pub fn get_ffmpeg_info() -> (r: FFmpegInfo)
        ensures
            r.name@ == "FFmpeg"@,
            r.version@ == "Latest (GPL Build)"@,
            r.features@.len() == 5,
    {
        let mut features: Vec<String> = Vec::new();
        features.push(String::from_str("支持几乎所有音视频格式 (MP4, AVI, MOV, FLV, OGG等)"));
        features.push(String::from_str("高质量编码和解码，支持多种编码器"));
        features.push(String::from_str("快速批量转换处理"));
        features.push(String::from_str("开源免费，社区活跃"));
        features.push(String::from_str("专业级音视频处理能力"));
        FFmpegInfo {
            name: String::from_str("FFmpeg"),
            version: String::from_str("Latest (GPL Build)"),
            description: String::from_str("FFmpeg 是一个功能强大的开源音视频处理工具，支持几乎所有主流格式"),
            download_size: String::from_str("约 184MB (压缩包)"),
            features,
        }
    }
}

} // verus!
