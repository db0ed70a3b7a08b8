//! Verified core of a command-line downloader for Bilibili videos: it reads
//! the video id out of an address, picks the fields it needs out of the
//! site's JSON answers, plans where the output and temporary files go,
//! builds the `ffmpeg` command lines and follows `ffmpeg`'s progress reports.
pub mod text;
pub mod progress;
pub mod cli;
pub mod paths;
pub mod temp;
pub mod bvid;
pub mod errors;
pub mod html;
pub mod json;
pub mod headers;
pub mod ffmpeg;
pub mod download;
pub mod result;
pub mod session;
