use biliget::cli::Cli;
use biliget::paths::{
    get_output_file, get_paths, get_temp_paths, handle_absolute_path, handle_relative_path,
    output_target, plan_paths, PathPlan, TargetProbe,
};
use std::path::{Path, PathBuf};

const CWD: &str = "/home/user/project";

fn create_cli_demo(output: Option<String>, only_audio: bool) -> Cli {
    Cli {
        url: "https://example.com".to_string(),
        output,
        only_audio,
        confirm_all: false,
    }
}

fn missing() -> TargetProbe {
    TargetProbe { try_exists_ok: true, is_file: false }
}

fn plan(title: &str, cli: &Cli, probe: TargetProbe) -> PathPlan {
    get_paths(title, cli, CWD, probe).expect("a plan")
}

#[test]
fn test_no_output_option() {
    let cli = create_cli_demo(None, false);
    let p = plan("test video", &cli, missing());
    let (output, video_temp, audio_temp) = (
        PathBuf::from(&p.output_file),
        PathBuf::from(&p.video_temp_file),
        PathBuf::from(&p.audio_temp_file),
    );

    assert!(output.ends_with("test video.mp4"));
    assert!(video_temp.ends_with("test video-video.tmp"));
    assert!(audio_temp.ends_with("test video-audio.tmp"));
}

#[test]
fn test_no_output_option_audio() {
    let cli = create_cli_demo(None, true);
    let p = plan("test audio", &cli, missing());
    let (output, video_temp, audio_temp) = (
        PathBuf::from(&p.output_file),
        PathBuf::from(&p.video_temp_file),
        PathBuf::from(&p.audio_temp_file),
    );

    assert!(output.ends_with("test audio.wav"));
    assert!(video_temp.ends_with("test audio-video.tmp"));
    assert!(audio_temp.ends_with("test audio-audio.tmp"));
}

#[test]
fn test_absolute_directory() {
    let cli = create_cli_demo(Some("/tmp".to_string()), false);
    let p = plan("my video", &cli, TargetProbe { try_exists_ok: true, is_file: false });

    assert_eq!(PathBuf::from(&p.output_file), PathBuf::from("/tmp/my video.mp4"));
    assert_eq!(PathBuf::from(&p.video_temp_file), PathBuf::from("/tmp/my video-video.tmp"));
    assert_eq!(PathBuf::from(&p.audio_temp_file), PathBuf::from("/tmp/my video-audio.tmp"));
}

#[test]
fn test_relative_directory() {
    let cli = create_cli_demo(Some("downloads".to_string()), false);
    let p = plan("video title", &cli, missing());

    let current_dir = PathBuf::from(CWD);
    let expected_dir = current_dir.join("downloads");
    assert_eq!(PathBuf::from(&p.output_file), expected_dir.join("video title.mp4"));
    assert_eq!(PathBuf::from(&p.video_temp_file), expected_dir.join("video title-video.tmp"));
    assert_eq!(PathBuf::from(&p.audio_temp_file), expected_dir.join("video title-audio.tmp"));
}

#[test]
fn test_absolute_file_with_extension() {
    let cli = create_cli_demo(Some("/tmp/output.mp4".to_string()), false);
    let p = plan("ignored title", &cli, missing());

    assert_eq!(PathBuf::from(&p.output_file), PathBuf::from("/tmp/output.mp4"));
    assert_eq!(PathBuf::from(&p.video_temp_file), PathBuf::from("/tmp/output-video.tmp"));
    assert_eq!(PathBuf::from(&p.audio_temp_file), PathBuf::from("/tmp/output-audio.tmp"));
}

#[test]
fn test_relative_file_with_extension() {
    let cli = create_cli_demo(Some("videos/output.mp4".to_string()), false);
    let p = plan("ignored", &cli, missing());

    let current_dir = PathBuf::from(CWD);
    let expected_output_dir = current_dir.join("videos");
    assert_eq!(PathBuf::from(&p.output_file), expected_output_dir.join("output.mp4"));
    assert_eq!(PathBuf::from(&p.video_temp_file), expected_output_dir.join("output-video.tmp"));
    assert_eq!(PathBuf::from(&p.audio_temp_file), expected_output_dir.join("output-audio.tmp"));
}

#[test]
fn no_output_writes_into_the_working_directory() {
    let cli = create_cli_demo(None, false);
    let p = plan("test video", &cli, missing());
    assert_eq!(p.output_file, "/home/user/project/test video.mp4");
    assert_eq!(p.video_temp_file, "/home/user/project/test video-video.tmp");
    assert_eq!(p.audio_temp_file, "/home/user/project/test video-audio.tmp");
    assert_eq!(p.create_dir, None);
}

#[test]
fn title_is_sanitized() {
    let cli = create_cli_demo(None, true);
    let p = plan("a/b:c*d?", &cli, missing());
    assert_eq!(p.output_file, "/home/user/project/abcd.wav");
    assert_eq!(p.video_temp_file, "/home/user/project/abcd-video.tmp");
}

#[test]
fn existing_absolute_file_is_the_output() {
    let cli = create_cli_demo(Some("/data/clip.final.mkv".to_string()), false);
    let p = plan("title", &cli, TargetProbe { try_exists_ok: true, is_file: true });
    assert_eq!(p.output_file, "/data/clip.final.mkv");
    // the stem is `clip.final`, and temporary names stop at its first dot
    assert_eq!(p.video_temp_file, "/data/clip-video.tmp");
    assert_eq!(p.audio_temp_file, "/data/clip-audio.tmp");
    assert_eq!(p.create_dir, None);
}

#[test]
fn absolute_directory_is_created() {
    let p = handle_absolute_path("/tmp/new dir", "t", true, missing());
    assert_eq!(p.output_file, "/tmp/new dir/t.wav");
    assert_eq!(p.create_dir.as_deref(), Some("/tmp/new dir"));
}

#[test]
fn unanswered_absolute_target_with_extension() {
    let p = handle_absolute_path(
        "/srv/out.mp4",
        "t",
        false,
        TargetProbe { try_exists_ok: false, is_file: false },
    );
    assert_eq!(p.output_file, "/srv/out.mp4");
    assert_eq!(p.video_temp_file, "/srv/out-video.tmp");
    assert_eq!(p.create_dir.as_deref(), Some("/srv"));
}

#[test]
fn unanswered_absolute_target_without_extension() {
    let p = handle_absolute_path(
        "/srv/out",
        "t",
        false,
        TargetProbe { try_exists_ok: false, is_file: false },
    );
    assert_eq!(p.output_file, "/srv/out/t.mp4");
    assert_eq!(p.create_dir.as_deref(), Some("/srv/out"));
}

#[test]
fn existing_relative_file_is_the_output() {
    let p = handle_relative_path(
        "v/x.mp4",
        "t",
        false,
        "/cwd",
        TargetProbe { try_exists_ok: true, is_file: true },
    );
    assert_eq!(p.output_file, "/cwd/v/x.mp4");
    assert_eq!(p.audio_temp_file, "/cwd/v/x-audio.tmp");
    assert_eq!(p.create_dir, None);
}

#[test]
fn unanswered_relative_target() {
    let probe = TargetProbe { try_exists_ok: false, is_file: false };
    let p = handle_relative_path("v/x.mp4", "t", false, "/cwd", probe);
    assert_eq!(p.output_file, "/cwd/v/x.mp4");
    assert_eq!(p.create_dir.as_deref(), Some("/cwd/v"));
    let p = handle_relative_path("v", "t", true, "/cwd", probe);
    assert_eq!(p.output_file, "/cwd/v/t.wav");
    assert_eq!(p.create_dir.as_deref(), Some("/cwd/v"));
}

#[test]
fn output_file_extension() {
    assert_eq!(get_output_file("/d", "name", false), "/d/name.mp4");
    assert_eq!(get_output_file("/d", "name", true), "/d/name.wav");
    assert_eq!(get_output_file("/d", "name.flac", true), "/d/name.flac");
}

#[test]
fn temp_paths_stop_at_first_dot() {
    let (v, a) = get_temp_paths("/d", "a.b.c");
    assert_eq!(v, "/d/a-video.tmp");
    assert_eq!(a, "/d/a-audio.tmp");
    let (v, a) = get_temp_paths("/d", "plain");
    assert_eq!(v, "/d/plain-video.tmp");
    assert_eq!(a, "/d/plain-audio.tmp");
}

#[test]
fn target_to_probe() {
    assert_eq!(output_target("/abs/x", "/cwd"), "/abs/x");
    assert_eq!(output_target("rel/x", "/cwd"), "/cwd/rel/x");
    assert!(Path::new(&output_target("rel", "/cwd")).is_absolute());
}

#[test]
fn plan_uses_the_title_as_given() {
    let cli = create_cli_demo(None, false);
    let p = plan_paths("x:y", &cli, "/w", missing()).unwrap();
    assert_eq!(p.output_file, "/w/x:y.mp4");
}

#[test]
fn titles_always_get_the_extension() {
    let cli = create_cli_demo(None, false);
    let p = plan("Ep.1 Intro", &cli, missing());
    assert_eq!(p.output_file, "/home/user/project/Ep.1 Intro.mp4");
    assert_eq!(p.video_temp_file, "/home/user/project/Ep-video.tmp");
    assert_eq!(p.audio_temp_file, "/home/user/project/Ep-audio.tmp");
    let audio = create_cli_demo(None, true);
    let p = plan("v1.2", &audio, missing());
    assert_eq!(p.output_file, "/home/user/project/v1.2.wav");
    let dir = create_cli_demo(Some("/tmp".to_string()), false);
    let p = plan("Ep.2", &dir, missing());
    assert_eq!(p.output_file, "/tmp/Ep.2.mp4");
}

#[test]
fn sanitizing_deletes_reserved_characters() {
    let cli = create_cli_demo(None, false);
    let p = plan("a/b:c?", &cli, missing());
    assert_eq!(p.output_file, "/home/user/project/abc.mp4");
    let p = plan("clean title", &cli, missing());
    assert_eq!(p.output_file, "/home/user/project/clean title.mp4");
}

#[test]
fn sanitized_names_are_exact() {
    let cli = create_cli_demo(None, false);
    let p = plan("A/B", &cli, missing());
    assert_eq!(p.output_file, "/home/user/project/AB.mp4");
    assert_eq!(p.video_temp_file, "/home/user/project/AB-video.tmp");
    assert_eq!(p.audio_temp_file, "/home/user/project/AB-audio.tmp");
    let p = plan("tab\there\u{85}", &cli, missing());
    assert_eq!(p.output_file, "/home/user/project/tabhere.mp4");
    let p = plan("...", &cli, missing());
    assert_eq!(p.output_file, "/home/user/project/.mp4");
    let long = "\u{e9}".repeat(200);
    let p = plan(&long, &cli, missing());
    assert_eq!(p.output_file, format!("/home/user/project/{}.mp4", "\u{e9}".repeat(127)));
}
