//! What reading a video's page gives.
use vstd::prelude::*;

verus! {

/// One video: its title, its id, and the addresses of its streams.
#[derive(Clone)]
pub struct Video {
    pub title: String,
    pub bvid: String,
    pub video_url: String,
    pub audio_url: String,
}

/// The videos found on a page: a collection, or exactly one video for a
/// single video's page; none where nothing was read.
#[derive(Clone)]
pub struct ExtractResult {
    pub videos: Option<Vec<Video>>,
}

/// The player information embedded in a video's page, of which nothing is
/// read yet.
#[derive(Debug)]
pub struct PlayInfo {}

} // verus!
