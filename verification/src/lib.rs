//! Parallel chunked media-conversion engine.
//!
//! The library plans how a media file is split into time segments, decides
//! how segment and task results roll up into batch statistics and progress
//! events, and builds the exact argument lists and manifests handed to the
//! external transcoder.  Process spawning, threads and file I/O live in the
//! surrounding application; everything that decides or computes is here,
//! with its behaviour stated in contracts.

pub mod errors;
pub mod numfmt;
pub mod text;
pub mod paths;
pub mod translit;
pub mod strings;
pub mod models;
pub mod templates;
pub mod fileutil;
pub mod plugin;
pub mod downloader;
pub mod resources;
pub mod probe;
pub mod video;
pub mod audio;
pub mod chunking;
pub mod ffmpeg_args;
pub mod processor;
pub mod parallel;
pub mod paa;
