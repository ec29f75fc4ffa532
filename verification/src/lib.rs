//! Verified core of a media toolkit: the rules, parsers, caches and state
//! machines that decide how media is probed, interpreted and decoded.
//!
//! Reading files, running FFmpeg, threads, clocks and floating point live
//! outside this crate and hand it plain values.

pub mod audio_source;
pub mod cache;
pub mod camera_raw;
pub mod decoder;
pub mod ffmpeg_command;
pub mod ffmpeg_runtime;
pub mod ffmpeg_tools;
pub mod info;
pub mod media_probe_process;
pub mod multilevel_cache;
pub mod native_process_job;
pub mod owner_lifetime;
pub mod packet_identity;
pub mod path;
pub mod preview;
pub mod recency;
pub mod text;
