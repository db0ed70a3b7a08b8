//! The decisions of one run: the title to use, which temporary files to
//! register, what to post-process and what to say while doing so.
use vstd::prelude::*;
use vstd::string::*;
use crate::ffmpeg::{ProcessError, ProcessOption};

verus! {

/// The title used when the site gives none.
pub open spec fn default_title() -> Seq<char> {
    "downloaded_video"@
}

/// The title to name files after: the site's title, or
/// `downloaded_video` where it is empty.
pub fn title_or_default(title: String) -> (res: String)
    ensures
        title@.len() == 0 ==> res@ == default_title(),
        title@.len() != 0 ==> res@ == title@,
{
    if title.as_str().is_empty() {
        String::from_str("downloaded_video")
    } else {
        title
    }
}

/// The temporary files of a run, to be removed at its end: the audio file
/// alone when only audio is kept, else the video file and then the audio
/// file.
pub fn temp_files_to_register(only_audio: bool, video_temp_file: &str, audio_temp_file: &str) -> (res:
    Vec<String>)
    ensures
        only_audio ==> res@.map_values(|f: String| f@) == seq![audio_temp_file@],
        !only_audio ==> res@.map_values(|f: String| f@) == seq![
            video_temp_file@,
            audio_temp_file@,
        ],
{
    let mut files: Vec<String> = Vec::new();
    if !only_audio {
        files.push(String::from_str(video_temp_file));
    }
    files.push(String::from_str(audio_temp_file));
    if only_audio {
        assert(files@.map_values(|f: String| f@) =~= seq![audio_temp_file@]);
    } else {
        assert(files@.map_values(|f: String| f@) =~= seq![video_temp_file@, audio_temp_file@]);
    }
    files
}

/// The message shown while post-processing.
pub fn process_message(only_audio: bool) -> (res: &'static str)
    ensures
        only_audio ==> res@ == "音频处理喵..."@,
        !only_audio ==> res@ == "视频合并喵..."@,
{
    if only_audio {
        "音频处理喵..."
    } else {
        "视频合并喵..."
    }
}

/// What to post-process after the downloads: the audio file always, the
/// video file unless only audio is kept, into the output file.
pub fn process_option_for(
    only_audio: bool,
    video_temp_file: &str,
    audio_temp_file: &str,
    output_file: &str,
) -> (res: ProcessOption)
    ensures
        res.only_audio == only_audio,
        only_audio ==> res.video_file is None,
        !only_audio ==> (res.video_file matches Some(v) && v@ == video_temp_file@),
        res.audio_file matches Some(a) && a@ == audio_temp_file@,
        res.output_file@ == output_file@,
{
    ProcessOption {
        video_file: if only_audio {
            None
        } else {
            Some(String::from_str(video_temp_file))
        },
        audio_file: Some(String::from_str(audio_temp_file)),
        output_file: String::from_str(output_file),
        only_audio,
    }
}

/// Whether a failed post-processing leaves the output file to be removed:
/// only a cancelled one, and only where the file exists.
pub fn remove_output_after(error: &ProcessError, output_exists: bool) -> (res: bool)
    ensures
        res == (error is Cancelled && output_exists),
{
    match error {
        ProcessError::Cancelled() => output_exists,
        _ => false,
    }
}

} // verus!
