use biliget::errors::FetchError;
use biliget::download::{prepare_download, tick_due, DownloaderError, ProgressThrottle};
use biliget::ffmpeg::{
    check_clip_inputs, check_convert_input, check_merge_inputs, clip_merge_args, clip_outcome,
    convert_audio_args, media_duration_args, merge_video_args, no_stdout_error, plan_process,
    probe_spawn_error, process_error_from, run_outcome, spawn_error, ClipError, FfmpegError,
    FfmpegTask, ProcessError, ProcessJob, ProcessOption, RunStatus,
};
use biliget::headers::{
    generate_default_headers, generate_default_headers_with_referer, to_hashmap,
    valid_header_value, video_page_url, video_request_headers,
};
use biliget::session::{
    process_message, process_option_for, remove_output_after, temp_files_to_register,
    title_or_default,
};
use biliget::temp::{add_temp_file, drop_temp_file, TempFiles};

#[test]
fn merge_and_convert_arguments() {
    assert_eq!(
        merge_video_args("v.tmp", "a.tmp", "out.mp4"),
        vec![
            "-hide_banner", "-progress", "pipe:1", "-nostats", "-i", "v.tmp", "-i", "a.tmp",
            "-c:v", "copy", "-c:a", "aac", "-y", "out.mp4"
        ]
    );
    assert_eq!(
        convert_audio_args("a.tmp", "out.wav"),
        vec![
            "-hide_banner", "-progress", "pipe:1", "-nostats", "-i", "a.tmp", "-vn", "-ar",
            "44100", "-ac", "2", "-y", "out.wav"
        ]
    );
    assert_eq!(
        media_duration_args("a.tmp"),
        vec!["-v", "error", "-show_entries", "format=duration", "-of", "default=noprint_wrappers=1:nokey=1", "a.tmp"]
    );
    assert_eq!(
        clip_merge_args("v", "a", "o"),
        vec!["-i", "v", "-i", "a", "-c:v", "copy", "-c:a", "aac", "-b:a", "192k", "-y", "o"]
    );
}

#[test]
fn run_outcomes() {
    assert!(run_outcome(FfmpegTask::Merge, RunStatus::Exited { success: true, code: Some(0) }).is_ok());
    match run_outcome(FfmpegTask::Merge, RunStatus::Exited { success: false, code: Some(1) }) {
        Err(FfmpegError::MergeError(m)) => assert_eq!(m, "Exit code: 1"),
        other => panic!("{:?}", other),
    }
    match run_outcome(FfmpegTask::Convert, RunStatus::Exited { success: false, code: None }) {
        Err(FfmpegError::ConvertError(m)) => assert_eq!(m, "Exit code: -1"),
        other => panic!("{:?}", other),
    }
    match run_outcome(FfmpegTask::Convert, RunStatus::Exited { success: false, code: Some(-2147483648) }) {
        Err(FfmpegError::ConvertError(m)) => assert_eq!(m, "Exit code: -2147483648"),
        other => panic!("{:?}", other),
    }
    match run_outcome(FfmpegTask::Merge, RunStatus::WaitFailed("broken pipe".to_string())) {
        Err(FfmpegError::MergeError(m)) => assert_eq!(m, "broken pipe"),
        other => panic!("{:?}", other),
    }
}

#[test]
fn error_messages() {
    assert!(matches!(spawn_error(FfmpegTask::Merge, "no such file"), FfmpegError::MergeError(m) if m == "启动失败: no such file"));
    assert!(matches!(spawn_error(FfmpegTask::Convert, "x"), FfmpegError::ConvertError(m) if m == "启动 ffmpeg 失败: x"));
    assert!(matches!(probe_spawn_error("y"), FfmpegError::ConvertError(m) if m == "无法启动 ffprobe: y"));
    assert!(matches!(no_stdout_error(FfmpegTask::Convert), FfmpegError::ConvertError(m) if m == "无法获取 FFmpeg stdout"));
}

#[test]
fn input_checks() {
    assert!(check_merge_inputs(true, true).is_ok());
    assert!(matches!(check_merge_inputs(true, false), Err(FfmpegError::FileNotFound())));
    assert!(matches!(check_merge_inputs(false, true), Err(FfmpegError::FileNotFound())));
    assert!(check_convert_input(true).is_ok());
    assert!(matches!(check_convert_input(false), Err(FfmpegError::FileNotFound())));
    assert!(check_clip_inputs(true, true).is_ok());
    assert!(matches!(check_clip_inputs(false, false), Err(ClipError::FileNotFound())));
    assert!(clip_outcome(Ok(true)).is_ok());
    assert!(matches!(clip_outcome(Ok(false)), Err(ClipError::MergeError(m)) if m == "ffmpeg执行失败"));
    assert!(matches!(clip_outcome(Err("e".to_string())), Err(ClipError::MergeError(m)) if m == "e"));
}

#[test]
fn process_jobs() {
    let opt = |v: Option<&str>, a: Option<&str>, only_audio: bool| ProcessOption {
        video_file: v.map(String::from),
        audio_file: a.map(String::from),
        output_file: "o".to_string(),
        only_audio,
    };
    assert!(matches!(plan_process(opt(None, Some("a"), true)), Ok(ProcessJob::ConvertAudio { audio_file, output_file }) if audio_file == "a" && output_file == "o"));
    assert!(matches!(plan_process(opt(Some("v"), None, true)), Err(ProcessError::ParamError())));
    assert!(matches!(plan_process(opt(Some("v"), Some("a"), false)), Ok(ProcessJob::Merge { video_file, audio_file, .. }) if video_file == "v" && audio_file == "a"));
    assert!(matches!(plan_process(opt(None, Some("a"), false)), Err(ProcessError::ParamError())));
    assert!(matches!(process_error_from(FfmpegError::Cancelled), ProcessError::Cancelled()));
    assert!(matches!(process_error_from(FfmpegError::FileNameError()), ProcessError::ProcessError(FfmpegError::FileNameError())));
}

fn sorted_pairs(m: &http::HeaderMap) -> Vec<(String, String)> {
    let mut pairs = to_hashmap(m);
    pairs.sort();
    pairs
}

#[test]
fn default_headers() {
    let h = generate_default_headers();
    assert_eq!(h.len(), 3);
    assert!(h.get("user-agent").unwrap().to_str().unwrap().starts_with("Mozilla/5.0"));
    assert_eq!(h.get("origin").unwrap(), "https://www.bilibili.com");
    assert_eq!(h.get("referer").unwrap(), "https://www.bilibili.com");
    let r = generate_default_headers_with_referer("https://www.bilibili.com/video/BV1");
    assert_eq!(r.len(), 3);
    assert_eq!(r.get("referer").unwrap(), "https://www.bilibili.com/video/BV1");
}

#[test]
fn request_headers_for_a_video() {
    let h = video_request_headers("BV1xx411c7mD").ok().unwrap();
    assert_eq!(h.len(), 3);
    assert_eq!(h.get("referer").unwrap(), "https://www.bilibili.com/video/BV1xx411c7mD");
    assert_eq!(h.get("origin").unwrap(), "https://www.bilibili.com");
    assert!(h.get("user-agent").is_some());
    assert!(matches!(
        video_request_headers("bad\nid"),
        Err(FetchError::InvalidHeader(_))
    ));
    assert!(matches!(video_request_headers("BV\u{0}1"), Err(FetchError::InvalidHeader(_))));
    assert!(video_request_headers("BV\u{e9}").is_ok());
}

#[test]
fn header_text_pairs() {
    let mut h = http::HeaderMap::new();
    h.insert("a", http::HeaderValue::from_static("1"));
    h.insert("b", http::HeaderValue::from_str("caf\u{e9}").unwrap());
    h.insert("a", http::HeaderValue::from_static("2"));
    assert_eq!(sorted_pairs(&h), vec![("a".to_string(), "2".to_string())]);
    h.append("a", http::HeaderValue::from_static("3"));
    h.append("a", http::HeaderValue::from_str("\u{e9}").unwrap());
    assert_eq!(sorted_pairs(&h), vec![("a".to_string(), "3".to_string())]);
    let d = sorted_pairs(&generate_default_headers());
    assert_eq!(d.len(), 3);
    assert_eq!(d[0], ("origin".to_string(), "https://www.bilibili.com".to_string()));
    assert_eq!(d[1], ("referer".to_string(), "https://www.bilibili.com".to_string()));
    assert_eq!(d[2].0, "user-agent");
    assert!(valid_header_value("caf\u{e9}\tok"));
    assert!(!valid_header_value("bad\nvalue"));
    assert!(!valid_header_value("del\u{7f}"));
    assert_eq!(video_page_url("BV1xx411c7mD"), "https://www.bilibili.com/video/BV1xx411c7mD");
}

#[test]
fn temp_files_are_handed_out_once() {
    let mut list = TempFiles::new();
    add_temp_file(&mut list, "/t/a-video.tmp");
    add_temp_file(&mut list, "/t/a-audio.tmp");
    assert_eq!(list.len(), 2);
    assert_eq!(drop_temp_file(&mut list), vec!["/t/a-video.tmp", "/t/a-audio.tmp"]);
    assert_eq!(list.len(), 0);
    assert!(drop_temp_file(&mut list).is_empty());
}

#[test]
fn session_decisions() {
    assert_eq!(title_or_default(String::new()), "downloaded_video");
    assert_eq!(title_or_default("t".to_string()), "t");
    assert_eq!(temp_files_to_register(true, "v", "a"), vec!["a"]);
    assert_eq!(temp_files_to_register(false, "v", "a"), vec!["v", "a"]);
    assert_eq!(process_message(true), "音频处理喵...");
    assert_eq!(process_message(false), "视频合并喵...");
    let o = process_option_for(false, "v", "a", "o");
    assert_eq!(o.video_file.as_deref(), Some("v"));
    assert_eq!(o.audio_file.as_deref(), Some("a"));
    assert_eq!(o.output_file, "o");
    assert!(!o.only_audio);
    assert!(process_option_for(true, "v", "a", "o").video_file.is_none());
    assert!(remove_output_after(&ProcessError::Cancelled(), true));
    assert!(!remove_output_after(&ProcessError::Cancelled(), false));
    assert!(!remove_output_after(&ProcessError::ParamError(), true));
}

#[test]
fn download_checks() {
    let t = prepare_download("https://example.com/a.m4s", "/tmp/x-audio.tmp").unwrap();
    assert_eq!(t.parent_dir, "/tmp");
    assert_eq!(t.url.as_str(), "https://example.com/a.m4s");
    let t = prepare_download("HTTPS://Example.COM/b?x=1", "/tmp/x-video.tmp").unwrap();
    assert_eq!(t.url, url::Url::parse("HTTPS://Example.COM/b?x=1").unwrap());
    assert_eq!(t.url.as_str(), "https://example.com/b?x=1");
    assert!(matches!(prepare_download("not a url", "/tmp/x"), Err(DownloaderError::UrlParseError(_))));
    assert!(matches!(prepare_download("https://example.com", "/"), Err(DownloaderError::FilePathError())));
}

#[test]
fn progress_is_passed_on_per_tick() {
    assert!(!tick_due(99));
    assert!(tick_due(100));
    let mut t = ProgressThrottle::new();
    assert_eq!(t.on_progress(10, false), None);
    assert_eq!(t.on_progress(5, true), Some(15));
    assert_eq!(t.on_progress(3, false), None);
    assert_eq!(t.finish(), Some(3));
    assert_eq!(t.finish(), None);
    assert!(t.can_take(u64::MAX));
    t.on_progress(1, false);
    assert!(!t.can_take(u64::MAX));
}
