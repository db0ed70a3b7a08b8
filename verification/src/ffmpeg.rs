//! The `ffmpeg` and `ffprobe` command lines, and what their outcomes mean.
use vstd::prelude::*;
use vstd::string::*;
use crate::text::{decimal_string, int_decimal, nat_decimal, parse_u64_spec, law_decimal_parse_roundtrip};

verus! {

/// Why an `ffmpeg` job failed.
#[derive(Debug)]
pub enum FfmpegError {
    FileNotFound(),
    FileNameError(),
    MergeError(String),
    ConvertError(String),
    Cancelled,
}

/// Why the post-processing of a download failed.
#[derive(Debug)]
pub enum ProcessError {
    ParamError(),
    ProcessError(FfmpegError),
    Cancelled(),
}

/// Why merging with a plain `ffmpeg` run failed.
#[derive(Debug)]
pub enum ClipError {
    FileNotFound(),
    MergeError(String),
}

/// The two jobs that `ffmpeg` is run for.
#[derive(Debug, Clone, Copy, PartialEq, Eq, Structural)]
pub enum FfmpegTask {
    Merge,
    Convert,
}

/// How an `ffmpeg` run ended: it exited, successfully or not and with its
/// exit code where it has one, or waiting for it failed with a message.
pub enum RunStatus {
    Exited { success: bool, code: Option<i32> },
    WaitFailed(String),
}

pub open spec fn args_view(args: Seq<String>) -> Seq<Seq<char>> {
    args.map_values(|a: String| a@)
}

/// The options given to every `ffmpeg` run: no banner, progress reports on
/// standard output, no statistics.
pub open spec fn global_args() -> Seq<Seq<char>> {
    seq!["-hide_banner"@, "-progress"@, "pipe:1"@, "-nostats"@]
}

/// The arguments that merge a video stream and an audio stream: the video
/// copied, the audio encoded as AAC, the output overwritten.
pub open spec fn merge_args_spec(video: Seq<char>, audio: Seq<char>, output: Seq<char>) -> Seq<
    Seq<char>,
> {
    global_args() + seq![
        "-i"@,
        video,
        "-i"@,
        audio,
        "-c:v"@,
        "copy"@,
        "-c:a"@,
        "aac"@,
        "-y"@,
        output,
    ]
}

/// The arguments that turn an audio stream into 44.1 kHz stereo without
/// video, the output overwritten.
pub open spec fn convert_args_spec(audio: Seq<char>, output: Seq<char>) -> Seq<Seq<char>> {
    global_args() + seq![
        "-i"@,
        audio,
        "-vn"@,
        "-ar"@,
        "44100"@,
        "-ac"@,
        "2"@,
        "-y"@,
        output,
    ]
}

/// The arguments that make `ffprobe` print only the duration of `path`, in
/// seconds.
pub open spec fn probe_args_spec(path: Seq<char>) -> Seq<Seq<char>> {
    seq![
        "-v"@,
        "error"@,
        "-show_entries"@,
        "format=duration"@,
        "-of"@,
        "default=noprint_wrappers=1:nokey=1"@,
        path,
    ]
}

/// The arguments of a plain merge: video copied, audio encoded as AAC at
/// 192 kbit/s, the output overwritten.
pub open spec fn clip_args_spec(video: Seq<char>, audio: Seq<char>, output: Seq<char>) -> Seq<
    Seq<char>,
> {
    seq![
        "-i"@,
        video,
        "-i"@,
        audio,
        "-c:v"@,
        "copy"@,
        "-c:a"@,
        "aac"@,
        "-b:a"@,
        "192k"@,
        "-y"@,
        output,
    ]
}

fn push_arg(args: &mut Vec<String>, a: &str)
    ensures
        args_view(final(args)@) == args_view(old(args)@).push(a@),
{
    args.push(String::from_str(a));
    assert(args_view(args@) =~= args_view(old(args)@).push(a@));
}

fn global_arg_list() -> (res: Vec<String>)
    ensures
        args_view(res@) == global_args(),
{
    let mut args: Vec<String> = Vec::new();
    push_arg(&mut args, "-hide_banner");
    push_arg(&mut args, "-progress");
    push_arg(&mut args, "pipe:1");
    push_arg(&mut args, "-nostats");
    assert(args_view(args@) =~= global_args());
    args
}

/// The `ffmpeg` arguments that merge `video_file` and `audio_file` into
/// `output_file`.
pub fn merge_video_args(video_file: &str, audio_file: &str, output_file: &str) -> (res: Vec<String>)
    ensures
        args_view(res@) == merge_args_spec(video_file@, audio_file@, output_file@),
{
    let mut args = global_arg_list();
    push_arg(&mut args, "-i");
    push_arg(&mut args, video_file);
    push_arg(&mut args, "-i");
    push_arg(&mut args, audio_file);
    push_arg(&mut args, "-c:v");
    push_arg(&mut args, "copy");
    push_arg(&mut args, "-c:a");
    push_arg(&mut args, "aac");
    push_arg(&mut args, "-y");
    push_arg(&mut args, output_file);
    assert(args_view(args@) =~= merge_args_spec(video_file@, audio_file@, output_file@));
    args
}

/// The `ffmpeg` arguments that turn `audio_file` into `output_file`.
pub fn convert_audio_args(audio_file: &str, output_file: &str) -> (res: Vec<String>)
    ensures
        args_view(res@) == convert_args_spec(audio_file@, output_file@),
{
    let mut args = global_arg_list();
    push_arg(&mut args, "-i");
    push_arg(&mut args, audio_file);
    push_arg(&mut args, "-vn");
    push_arg(&mut args, "-ar");
    push_arg(&mut args, "44100");
    push_arg(&mut args, "-ac");
    push_arg(&mut args, "2");
    push_arg(&mut args, "-y");
    push_arg(&mut args, output_file);
    assert(args_view(args@) =~= convert_args_spec(audio_file@, output_file@));
    args
}

/// The `ffprobe` arguments that print the duration of `path`.
pub fn media_duration_args(path: &str) -> (res: Vec<String>)
    ensures
        args_view(res@) == probe_args_spec(path@),
{
    let mut args: Vec<String> = Vec::new();
    push_arg(&mut args, "-v");
    push_arg(&mut args, "error");
    push_arg(&mut args, "-show_entries");
    push_arg(&mut args, "format=duration");
    push_arg(&mut args, "-of");
    push_arg(&mut args, "default=noprint_wrappers=1:nokey=1");
    push_arg(&mut args, path);
    assert(args_view(args@) =~= probe_args_spec(path@));
    args
}

/// The `ffmpeg` arguments of a plain merge of `video_file` and `audio_file`
/// into `output_file`.
pub fn clip_merge_args(video_file: &str, audio_file: &str, output_file: &str) -> (res: Vec<String>)
    ensures
        args_view(res@) == clip_args_spec(video_file@, audio_file@, output_file@),
{
    let mut args: Vec<String> = Vec::new();
    push_arg(&mut args, "-i");
    push_arg(&mut args, video_file);
    push_arg(&mut args, "-i");
    push_arg(&mut args, audio_file);
    push_arg(&mut args, "-c:v");
    push_arg(&mut args, "copy");
    push_arg(&mut args, "-c:a");
    push_arg(&mut args, "aac");
    push_arg(&mut args, "-b:a");
    push_arg(&mut args, "192k");
    push_arg(&mut args, "-y");
    push_arg(&mut args, output_file);
    assert(args_view(args@) =~= clip_args_spec(video_file@, audio_file@, output_file@));
    args
}

/// The error of `task` with message `msg`: `MergeError` for a merge,
/// `ConvertError` for a conversion.
pub open spec fn task_error_spec(task: FfmpegTask, msg: Seq<char>) -> spec_fn(FfmpegError) -> bool {
    |e: FfmpegError|
        match task {
            FfmpegTask::Merge => e matches FfmpegError::MergeError(m) && m@ == msg,
            FfmpegTask::Convert => e matches FfmpegError::ConvertError(m) && m@ == msg,
        }
}

fn task_error(task: FfmpegTask, msg: String) -> (res: FfmpegError)
    ensures
        task_error_spec(task, msg@)(res),
{
    match task {
        FfmpegTask::Merge => FfmpegError::MergeError(msg),
        FfmpegTask::Convert => FfmpegError::ConvertError(msg),
    }
}

/// The message of a run that exited with `code`: `Exit code: ` and the
/// code, or -1 where there is none.
pub open spec fn exit_message(code: Option<i32>) -> Seq<char> {
    "Exit code: "@ + int_decimal(
        match code {
            Some(c) => c as int,
            None => -1,
        },
    )
}

/// What the end of an `ffmpeg` run means for `task`: success where it
/// exited successfully; otherwise the task's error, with the exit code or
/// the message of the failed wait.
pub fn run_outcome(task: FfmpegTask, status: RunStatus) -> (res: Result<(), FfmpegError>)
    ensures
        match status {
            RunStatus::Exited { success: true, .. } => res is Ok,
            RunStatus::Exited { success: false, code } => res matches Err(e) && task_error_spec(
                task,
                exit_message(code),
            )(e),
            RunStatus::WaitFailed(m) => res matches Err(e) && task_error_spec(task, m@)(e),
        },
{
    match status {
        RunStatus::Exited { success, code } => {
            if success {
                Ok(())
            } else {
                let c: i64 = match code {
                    Some(c) => c as i64,
                    None => -1,
                };
                let mut msg = String::from_str("Exit code: ");
                let digits = decimal_string(c);
                msg.append(digits.as_str());
                Err(task_error(task, msg))
            }
        },
        RunStatus::WaitFailed(m) => Err(task_error(task, m)),
    }
}

/// The error of a run of `ffmpeg` for `task` that could not be started,
/// `reason` saying why.
pub fn spawn_error(task: FfmpegTask, reason: &str) -> (res: FfmpegError)
    ensures
        task_error_spec(
            task,
            match task {
                FfmpegTask::Merge => "启动失败: "@ + reason@,
                FfmpegTask::Convert => "启动 ffmpeg 失败: "@ + reason@,
            },
        )(res),
{
    match task {
        FfmpegTask::Merge => {
            let mut msg = String::from_str("启动失败: ");
            msg.append(reason);
            FfmpegError::MergeError(msg)
        },
        FfmpegTask::Convert => {
            let mut msg = String::from_str("启动 ffmpeg 失败: ");
            msg.append(reason);
            FfmpegError::ConvertError(msg)
        },
    }
}

/// The error of an `ffprobe` run that could not be started, `reason`
/// saying why.
pub fn probe_spawn_error(reason: &str) -> (res: FfmpegError)
    ensures
        res matches FfmpegError::ConvertError(m) && m@ == "无法启动 ffprobe: "@ + reason@,
{
    let mut msg = String::from_str("无法启动 ffprobe: ");
    msg.append(reason);
    FfmpegError::ConvertError(msg)
}

/// The error of a run of `ffmpeg` for `task` whose output could not be
/// read.
pub fn no_stdout_error(task: FfmpegTask) -> (res: FfmpegError)
    ensures
        task_error_spec(task, "无法获取 FFmpeg stdout"@)(res),
{
    task_error(task, String::from_str("无法获取 FFmpeg stdout"))
}

/// A merge needs both input files.
pub fn check_merge_inputs(video_exists: bool, audio_exists: bool) -> (res: Result<(), FfmpegError>)
    ensures
        res is Ok <==> video_exists && audio_exists,
        res matches Err(e) ==> e is FileNotFound,
{
    if !video_exists || !audio_exists {
        return Err(FfmpegError::FileNotFound());
    }
    Ok(())
}

/// A conversion needs its input file.
pub fn check_convert_input(audio_exists: bool) -> (res: Result<(), FfmpegError>)
    ensures
        res is Ok <==> audio_exists,
        res matches Err(e) ==> e is FileNotFound,
{
    if !audio_exists {
        return Err(FfmpegError::FileNotFound());
    }
    Ok(())
}

/// A plain merge needs both input files.
pub fn check_clip_inputs(video_exists: bool, audio_exists: bool) -> (res: Result<(), ClipError>)
    ensures
        res is Ok <==> video_exists && audio_exists,
        res matches Err(e) ==> e is FileNotFound,
{
    if !video_exists || !audio_exists {
        return Err(ClipError::FileNotFound());
    }
    Ok(())
}

/// What the end of a plain merge means: success where `ffmpeg` exited
/// successfully, `MergeError("ffmpeg执行失败")` where it did not, and
/// `MergeError` with the message where it could not be run.
pub fn clip_outcome(status: Result<bool, String>) -> (res: Result<(), ClipError>)
    ensures
        match status {
            Ok(true) => res is Ok,
            Ok(false) => res matches Err(ClipError::MergeError(m)) && m@ == "ffmpeg执行失败"@,
            Err(m) => res matches Err(ClipError::MergeError(r)) && r@ == m@,
        },
{
    match status {
        Ok(true) => Ok(()),
        Ok(false) => Err(ClipError::MergeError(String::from_str("ffmpeg执行失败"))),
        Err(m) => Err(ClipError::MergeError(m)),
    }
}

/// What to post-process: the audio alone, or a video and an audio file to
/// merge, into the output file.
pub struct ProcessOption {
    pub video_file: Option<String>,
    pub audio_file: Option<String>,
    pub output_file: String,
    pub only_audio: bool,
}

/// The `ffmpeg` job that a [`ProcessOption`] calls for.
pub enum ProcessJob {
    ConvertAudio { audio_file: String, output_file: String },
    Merge { video_file: String, audio_file: String, output_file: String },
}

/// The job for `option`: converting the audio file when only audio is
/// wanted, else merging the video and audio files. A file that the job
/// needs and that is not given is `ParamError`.
pub fn plan_process(option: ProcessOption) -> (res: Result<ProcessJob, ProcessError>)
    ensures
        option.only_audio ==> match option.audio_file {
            Some(a) => res matches Ok(ProcessJob::ConvertAudio { audio_file, output_file }) && audio_file
                == a && output_file == option.output_file,
            None => res matches Err(e) && e is ParamError,
        },
        !option.only_audio ==> match (option.video_file, option.audio_file) {
            (Some(v), Some(a)) => res matches Ok(
                ProcessJob::Merge { video_file, audio_file, output_file },
            ) && video_file == v && audio_file == a && output_file == option.output_file,
            _ => res matches Err(e) && e is ParamError,
        },
{
    let ProcessOption { video_file, audio_file, output_file, only_audio } = option;
    if only_audio {
        match audio_file {
            Some(audio_file) => Ok(ProcessJob::ConvertAudio { audio_file, output_file }),
            None => Err(ProcessError::ParamError()),
        }
    } else {
        match (video_file, audio_file) {
            (Some(video_file), Some(audio_file)) => Ok(
                ProcessJob::Merge { video_file, audio_file, output_file },
            ),
            _ => Err(ProcessError::ParamError()),
        }
    }
}

/// The post-processing error for a failed `ffmpeg` job: a cancelled job is
/// `Cancelled`, any other failure is carried in `ProcessError`.
pub fn process_error_from(e: FfmpegError) -> (res: ProcessError)
    ensures
        e is Cancelled ==> res is Cancelled,
        !(e is Cancelled) ==> res == ProcessError::ProcessError(e),
{
    match e {
        FfmpegError::Cancelled => ProcessError::Cancelled(),
        _ => ProcessError::ProcessError(e),
    }
}

/// The merge command passes its three paths on verbatim, whatever
/// characters they hold: the video after the first `-i`, the audio after
/// the second, the output last.
pub proof fn law_merge_args_paths_verbatim(video: Seq<char>, audio: Seq<char>, output: Seq<char>)
    ensures
        merge_args_spec(video, audio, output).len() == 14,
        merge_args_spec(video, audio, output)[4] == "-i"@,
        merge_args_spec(video, audio, output)[5] == video,
        merge_args_spec(video, audio, output)[6] == "-i"@,
        merge_args_spec(video, audio, output)[7] == audio,
        merge_args_spec(video, audio, output)[13] == output,
{
}

/// Two merge commands differ only in the paths: changing the paths changes
/// no other argument.
pub proof fn law_merge_args_depend_only_on_paths(
    video: Seq<char>,
    audio: Seq<char>,
    output: Seq<char>,
    video2: Seq<char>,
    audio2: Seq<char>,
    output2: Seq<char>,
)
    ensures
        merge_args_spec(video, audio, output) == merge_args_spec(video2, audio2, output2).update(
            5,
            video,
        ).update(7, audio).update(13, output),
{
    assert(merge_args_spec(video, audio, output) =~= merge_args_spec(
        video2,
        audio2,
        output2,
    ).update(5, video).update(7, audio).update(13, output));
}

/// The conversion command passes its two paths on verbatim: the audio after
/// `-i`, the output last.
pub proof fn law_convert_args_paths_verbatim(audio: Seq<char>, output: Seq<char>)
    ensures
        convert_args_spec(audio, output).len() == 13,
        convert_args_spec(audio, output)[4] == "-i"@,
        convert_args_spec(audio, output)[5] == audio,
        convert_args_spec(audio, output)[12] == output,
{
}

/// Two conversion commands differ only in the paths.
pub proof fn law_convert_args_depend_only_on_paths(
    audio: Seq<char>,
    output: Seq<char>,
    audio2: Seq<char>,
    output2: Seq<char>,
)
    ensures
        convert_args_spec(audio, output) == convert_args_spec(audio2, output2).update(
            5,
            audio,
        ).update(12, output),
{
    assert(convert_args_spec(audio, output) =~= convert_args_spec(audio2, output2).update(
        5,
        audio,
    ).update(12, output));
}

/// The probe command passes its path on verbatim, last, and two probe
/// commands differ only there.
pub proof fn law_probe_args_path_verbatim(path: Seq<char>, path2: Seq<char>)
    ensures
        probe_args_spec(path).len() == 7,
        probe_args_spec(path)[6] == path,
        probe_args_spec(path) == probe_args_spec(path2).update(6, path),
{
    assert(probe_args_spec(path) =~= probe_args_spec(path2).update(6, path));
}

/// The plain merge command passes its three paths on verbatim, and two such
/// commands differ only in the paths.
pub proof fn law_clip_args_paths_verbatim(
    video: Seq<char>,
    audio: Seq<char>,
    output: Seq<char>,
    video2: Seq<char>,
    audio2: Seq<char>,
    output2: Seq<char>,
)
    ensures
        clip_args_spec(video, audio, output).len() == 12,
        clip_args_spec(video, audio, output)[1] == video,
        clip_args_spec(video, audio, output)[3] == audio,
        clip_args_spec(video, audio, output)[11] == output,
        clip_args_spec(video, audio, output) == clip_args_spec(video2, audio2, output2).update(
            1,
            video,
        ).update(3, audio).update(11, output),
{
    assert(clip_args_spec(video, audio, output) =~= clip_args_spec(
        video2,
        audio2,
        output2,
    ).update(1, video).update(3, audio).update(11, output));
}

/// The message of a failed run reads back as its exit code: after
/// `Exit code: ` comes the code in decimal, with a `-` where it is negative,
/// and a run without a code reads as -1.
pub proof fn law_exit_message_reads_back(code: i32)
    ensures
        exit_message(Some(code)).subrange(0, 11) == "Exit code: "@,
        code >= 0 ==> parse_u64_spec(
            exit_message(Some(code)).subrange(11, exit_message(Some(code)).len() as int),
        ) == Some(code as u64),
        code < 0 ==> exit_message(Some(code))[11] == '-' && parse_u64_spec(
            exit_message(Some(code)).subrange(12, exit_message(Some(code)).len() as int),
        ) == Some((-code) as u64),
        exit_message(None) == exit_message(Some(-1i32)),
{
    reveal_strlit("Exit code: ");
    let m = exit_message(Some(code));
    assert(m.subrange(0, 11) =~= "Exit code: "@);
    if code >= 0 {
        law_decimal_parse_roundtrip(code as u64);
        assert(m.subrange(11, m.len() as int) =~= nat_decimal(code as nat));
    } else {
        law_decimal_parse_roundtrip((-code) as u64);
        assert(m.subrange(12, m.len() as int) =~= nat_decimal((-code) as nat));
    }
}

} // verus!
