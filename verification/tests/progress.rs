use biliget::progress::{FfmpegProgress, FfmpegStatus, ProgressLines};
use biliget::text::{decimal_string, find_char, has_prefix, parse_u64, str_eq, trim};

#[test]
fn reads_a_full_report() {
    let lines = [
        "frame=120",
        "fps=30.00",
        "out_time_us=4000000",
        "out_time=00:00:04.000000",
        "progress=continue",
    ];
    let p = FfmpegProgress::from_lines(&lines);
    assert_eq!(p.status, FfmpegStatus::Continue);
    assert_eq!(p.frame, 120);
    assert_eq!(p.out_time_us, 4000000);
}

#[test]
fn end_status_and_last_value_wins() {
    let lines = ["frame=1", "frame = 7 ", "progress=end"];
    let p = FfmpegProgress::from_lines(&lines);
    assert_eq!(p.status, FfmpegStatus::End);
    assert_eq!(p.frame, 7);
    assert_eq!(p.out_time_us, 0);
}

#[test]
fn unknown_and_unreadable_values_keep_defaults() {
    let lines = ["progress=paused", "frame=abc", "out_time_us=-5", "no separator"];
    let p = FfmpegProgress::from_lines(&lines);
    assert_eq!(p.status, FfmpegStatus::Continue);
    assert_eq!(p.frame, 0);
    assert_eq!(p.out_time_us, 0);
}

#[test]
fn empty_report_is_default() {
    let p = FfmpegProgress::from_lines(&[]);
    let d = FfmpegProgress::default();
    assert_eq!(p.status, d.status);
    assert_eq!(p.frame, d.frame);
    assert_eq!(p.out_time_us, d.out_time_us);
    assert_eq!(FfmpegStatus::default(), FfmpegStatus::Continue);
}

#[test]
fn value_keeps_later_separators_and_unicode_spaces_are_trimmed() {
    let lines = ["out_time_us=\u{3000}+42\u{a0}", "frame==3"];
    let p = FfmpegProgress::from_lines(&lines);
    assert_eq!(p.out_time_us, 42);
    assert_eq!(p.frame, 0);
}

#[test]
fn lines_are_collected_until_progress() {
    let mut c = ProgressLines::new();
    assert!(c.push_line("frame=10".to_string()).is_none());
    assert!(c.push_line("out_time_us=1500".to_string()).is_none());
    let r = c.push_line("progress=continue".to_string()).expect("a report");
    assert_eq!(r.frame, 10);
    assert_eq!(r.out_time_us, 1500);
    // the next report starts from nothing
    let r = c.push_line("progress=end".to_string()).expect("a report");
    assert_eq!(r.status, FfmpegStatus::End);
    assert_eq!(r.frame, 0);
    assert_eq!(r.out_time_us, 0);
    // `progress` must begin the line
    assert!(c.push_line(" progress=end".to_string()).is_none());
}

#[test]
fn parse_u64_as_std() {
    for s in ["0", "42", "+7", "007", "18446744073709551615", "", "+", "-1", "1 ", "18446744073709551616", "1a"] {
        assert_eq!(parse_u64(s), s.parse::<u64>().ok(), "input {:?}", s);
    }
    assert_eq!(parse_u64("12345"), Some(12345));
    assert_eq!(parse_u64("99999999999999999999"), None);
}

#[test]
fn trim_as_std() {
    for s in ["  a b  ", "\t\n x\r", "", "   ", "\u{2003}y\u{200a}", "\u{85}z"] {
        assert_eq!(trim(s), s.trim(), "input {:?}", s);
    }
}

#[test]
fn decimal_as_display() {
    for n in [0i64, 7, -1, 10, -255, 1234567890, i64::MIN, i64::MAX] {
        assert_eq!(decimal_string(n), n.to_string());
    }
    assert_eq!(parse_u64(&decimal_string(9876543210)), Some(9876543210));
}

#[test]
fn small_string_helpers() {
    assert_eq!(find_char("ab=cd=e", '='), Some(2));
    assert_eq!(find_char("abc", '='), None);
    assert_eq!(find_char("é=x", '='), Some(1));
    assert!(str_eq("abc", "abc"));
    assert!(!str_eq("abc", "abd"));
    assert!(!str_eq("abc", "ab"));
    assert!(has_prefix("progress=end", "progress="));
    assert!(!has_prefix("prog", "progress="));
}
