use biliget::bvid::get_bvid_from_url;
use biliget::errors::{ExtractError, FetchError};
use biliget::html::{extract_play_info_from_html, match_json_nth};
use biliget::json::{get_download_url, get_info, JsonNumber, JsonValue};

#[test]
fn bvid_from_urls() {
    assert_eq!(
        get_bvid_from_url("https://www.bilibili.com/video/BV1xx411c7mD?p=1").as_deref(),
        Some("BV1xx411c7mD")
    );
    assert_eq!(get_bvid_from_url("BV1GJ411x7h7").as_deref(), Some("BV1GJ411x7h7"));
    // too long: no word boundary after ten characters
    assert_eq!(get_bvid_from_url("https://b23.tv/BV1xx411c7mDx"), None);
    assert_eq!(get_bvid_from_url("https://www.bilibili.com/"), None);
    // the first of two
    assert_eq!(
        get_bvid_from_url("BV1111111111 and BV2222222222").as_deref(),
        Some("BV1111111111")
    );
}

const PAGE: &str = "<html><script>window.__playinfo__={\"a\":1}</script><script>window.__playinfo__={\"b\":2}</script>";

#[test]
fn finds_the_nth_block() {
    let bytes = PAGE.as_bytes();
    let first = match_json_nth(bytes, 1).unwrap();
    assert_eq!(first, (14, 41));
    assert_eq!(&PAGE[first.0 + 20..first.1], "{\"a\":1}");
    let second = match_json_nth(bytes, 2).unwrap();
    assert_eq!(&PAGE[second.0 + 20..second.1], "{\"b\":2}");
    assert!(matches!(match_json_nth(bytes, 3), Err(ExtractError::FailedToParse)));
    assert!(matches!(match_json_nth(bytes, 0), Err(ExtractError::FailedToParse)));
    assert!(matches!(
        match_json_nth(b"window.__playinfo__={} no end", 1),
        Err(ExtractError::FailedToParse)
    ));
    assert!(matches!(match_json_nth(b"wwwindow.__playinfo", 1), Err(ExtractError::FailedToParse)));
}

#[test]
fn play_info_from_page() {
    assert!(matches!(extract_play_info_from_html(""), Err(ExtractError::EmptyHTMLResponse)));
    assert_eq!(extract_play_info_from_html(PAGE).unwrap(), "{\"a\":1}");
    let page = "<p>caf\u{e9}</p><script>window.__playinfo__={\"t\":\"\u{e9}\"}</script>";
    assert_eq!(extract_play_info_from_html(page).unwrap(), "{\"t\":\"\u{e9}\"}");
    assert_eq!(
        extract_play_info_from_html("window.__playinfo__=</script>").unwrap(),
        ""
    );
}

fn s(x: &str) -> JsonValue {
    JsonValue::String(x.to_string())
}

fn obj(members: Vec<(&str, JsonValue)>) -> JsonValue {
    JsonValue::Object(members.into_iter().map(|(k, v)| (k.to_string(), v)).collect())
}

#[test]
fn info_fields() {
    let json = obj(vec![(
        "data",
        JsonValue::Array(vec![obj(vec![
            ("cid", JsonValue::Number(JsonNumber::PosInt(279786))),
            ("part", s("P1 title")),
        ])]),
    )]);
    let (cid, title) = get_info(&json).unwrap();
    assert_eq!(cid, 279786);
    assert_eq!(title, "P1 title");

    let no_title = obj(vec![(
        "data",
        JsonValue::Array(vec![obj(vec![("cid", JsonValue::Number(JsonNumber::NegInt(-3)))])]),
    )]);
    assert!(matches!(get_info(&no_title), Err(FetchError::ParseError("title"))));

    let big = obj(vec![(
        "data",
        JsonValue::Array(vec![obj(vec![
            ("cid", JsonValue::Number(JsonNumber::PosInt(u64::MAX))),
            ("part", s("x")),
        ])]),
    )]);
    assert!(matches!(get_info(&big), Err(FetchError::ParseError("cid"))));
    assert!(matches!(get_info(&JsonValue::Null), Err(FetchError::ParseError("cid"))));
}

#[test]
fn stream_fields() {
    let stream = |url: &str| JsonValue::Array(vec![obj(vec![("baseUrl", s(url))])]);
    let json = obj(vec![(
        "data",
        obj(vec![("dash", obj(vec![("video", stream("https://v")), ("audio", stream("https://a"))]))]),
    )]);
    let (v, a) = get_download_url(&json).unwrap();
    assert_eq!(v, "https://v");
    assert_eq!(a, "https://a");

    let no_audio = obj(vec![("data", obj(vec![("dash", obj(vec![("video", stream("https://v"))]))]))]);
    assert!(matches!(get_download_url(&no_audio), Err(FetchError::ParseError("audio_url"))));
    let bad_video = obj(vec![(
        "data",
        obj(vec![("dash", obj(vec![("video", JsonValue::Array(vec![])), ("audio", stream("a"))]))]),
    )]);
    assert!(matches!(get_download_url(&bad_video), Err(FetchError::ParseError("video_url"))));
}
