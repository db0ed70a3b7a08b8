//! The command line, as plain values.
use vstd::prelude::*;

verus! {

/// The options that the downloader is run with: the video's address,
/// where to write (`--output`), whether to keep only the audio, and whether
/// to go on without asking.
pub struct Cli {
    pub url: String,
    pub output: Option<String>,
    pub only_audio: bool,
    pub confirm_all: bool,
}

} // verus!
