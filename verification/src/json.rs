//! The site's JSON answers, as plain values, and the fields read from them:
//! the part id and title of a video, and the addresses of its streams.
use vstd::prelude::*;
use vstd::string::*;
use crate::errors::FetchError;
use crate::text::str_eq;

verus! {

/// A JSON number, as far as the answers are read: a non-negative integer,
/// a negative integer, or a number with a fraction or exponent.
#[derive(Debug, Clone, Copy, PartialEq, Eq, Structural)]
pub enum JsonNumber {
    PosInt(u64),
    NegInt(i64),
    Float,
}

/// A JSON value. An object keeps its members in order, each key once.
#[derive(Debug)]
pub enum JsonValue {
    Null,
    Bool(bool),
    Number(JsonNumber),
    String(String),
    Array(Vec<JsonValue>),
    Object(Vec<(String, JsonValue)>),
}

/// The value of the first member named `key`.
pub open spec fn member_value(members: Seq<(String, JsonValue)>, key: Seq<char>) -> Option<
    JsonValue,
>
    decreases members.len(),
{
    if members.len() == 0 {
        None
    } else if members[0].0@ == key {
        Some(members[0].1)
    } else {
        member_value(members.drop_first(), key)
    }
}

/// `value[key]`: the member named `key` of an object; `null` for a missing
/// member or a value that is no object.
pub open spec fn json_key(value: JsonValue, key: Seq<char>) -> JsonValue {
    match value {
        JsonValue::Object(members) => match member_value(members@, key) {
            Some(v) => v,
            None => JsonValue::Null,
        },
        _ => JsonValue::Null,
    }
}

/// `value[i]`: the element at `i` of an array; `null` past its end or for a
/// value that is no array.
pub open spec fn json_at(value: JsonValue, i: int) -> JsonValue {
    match value {
        JsonValue::Array(items) => if 0 <= i < items@.len() {
            items@[i]
        } else {
            JsonValue::Null
        },
        _ => JsonValue::Null,
    }
}

/// `value.as_i64()`: an integer that fits in an `i64`.
pub open spec fn json_i64(value: JsonValue) -> Option<i64> {
    match value {
        JsonValue::Number(JsonNumber::PosInt(n)) => if n <= i64::MAX {
            Some(n as i64)
        } else {
            None
        },
        JsonValue::Number(JsonNumber::NegInt(n)) => Some(n),
        _ => None,
    }
}

/// `value.as_str()`: the text of a string.
pub open spec fn json_str(value: JsonValue) -> Option<Seq<char>> {
    match value {
        JsonValue::String(s) => Some(s@),
        _ => None,
    }
}

/// The entry of a page list that a video's part is read from:
/// `json["data"][0]`.
pub open spec fn first_part(json: JsonValue) -> JsonValue {
    json_at(json_key(json, "data"@), 0)
}

/// The first stream of one kind (`"video"` or `"audio"`):
/// `json["data"]["dash"][kind][0]`.
pub open spec fn first_stream(json: JsonValue, kind: Seq<char>) -> JsonValue {
    json_at(json_key(json_key(json_key(json, "data"@), "dash"@), kind), 0)
}

/// A reference to a JSON value where `None` stands for `null`.
pub open spec fn ref_or_null(r: Option<&JsonValue>) -> JsonValue {
    match r {
        Some(v) => *v,
        None => JsonValue::Null,
    }
}

fn key<'a>(value: Option<&'a JsonValue>, name: &str) -> (res: Option<&'a JsonValue>)
    ensures
        ref_or_null(res) == json_key(ref_or_null(value), name@),
{
    match value {
        Some(JsonValue::Object(members)) => {
            let n = members.len();
            let mut i: usize = 0;
            assert(members@.skip(0) =~= members@);
            while i < n
                invariant
                    n == members@.len(),
                    json_key(ref_or_null(value), name@) == match member_value(members@, name@) {
                        Some(v) => v,
                        None => JsonValue::Null,
                    },
                    i <= n,
                    member_value(members@, name@) == member_value(members@.skip(i as int), name@),
                decreases n - i,
            {
                let ghost rest = members@.skip(i as int);
                assert(rest.drop_first() =~= members@.skip(i + 1));
                assert(rest[0] == members@[i as int]);
                if str_eq(members[i].0.as_str(), name) {
                    return Some(&members[i].1);
                }
                i = i + 1;
            }
            None
        },
        _ => None,
    }
}

fn at<'a>(value: Option<&'a JsonValue>, i: usize) -> (res: Option<&'a JsonValue>)
    ensures
        ref_or_null(res) == json_at(ref_or_null(value), i as int),
{
    match value {
        Some(JsonValue::Array(items)) => if i < items.len() {
            Some(&items[i])
        } else {
            None
        },
        _ => None,
    }
}

fn as_i64(value: Option<&JsonValue>) -> (res: Option<i64>)
    ensures
        res == json_i64(ref_or_null(value)),
{
    match value {
        Some(JsonValue::Number(JsonNumber::PosInt(n))) => if *n <= 9223372036854775807u64 {
            Some(*n as i64)
        } else {
            None
        },
        Some(JsonValue::Number(JsonNumber::NegInt(n))) => Some(*n),
        _ => None,
    }
}

fn as_string(value: Option<&JsonValue>) -> (res: Option<String>)
    ensures
        match res {
            Some(s) => json_str(ref_or_null(value)) == Some(s@),
            None => json_str(ref_or_null(value)) is None,
        },
{
    match value {
        Some(JsonValue::String(s)) => Some(String::from_str(s.as_str())),
        _ => None,
    }
}

/// What [`get_info`] gives: the part id and the title, or the name of the
/// first field that is missing.
pub open spec fn info_spec(json: JsonValue) -> Result<(i64, Seq<char>), Seq<char>> {
    match json_i64(json_key(first_part(json), "cid"@)) {
        None => Err("cid"@),
        Some(cid) => match json_str(json_key(first_part(json), "part"@)) {
            None => Err("title"@),
            Some(title) => Ok((cid, title)),
        },
    }
}

/// What [`get_download_url`] gives: the addresses of the first video and
/// the first audio stream, or the name of the first field that is missing.
pub open spec fn download_url_spec(json: JsonValue) -> Result<(Seq<char>, Seq<char>), Seq<char>> {
    match json_str(json_key(first_stream(json, "video"@), "baseUrl"@)) {
        None => Err("video_url"@),
        Some(video) => match json_str(json_key(first_stream(json, "audio"@), "baseUrl"@)) {
            None => Err("audio_url"@),
            Some(audio) => Ok((video, audio)),
        },
    }
}

/// Reads the part id (`data[0].cid`) and title (`data[0].part`) from the
/// answer of the page-list request. A missing or mistyped field is
/// `ParseError` naming it: `"cid"` or `"title"`.
pub fn get_info(json: &JsonValue) -> (res: Result<(i64, String), FetchError>)
    ensures
        match res {
            Ok((cid, title)) => info_spec(*json) == Ok::<(i64, Seq<char>), Seq<char>>(
                (cid, title@),
            ),
            Err(e) => e matches FetchError::ParseError(field) && info_spec(*json) == Err::<
                (i64, Seq<char>),
                Seq<char>,
            >(field@),
        },
{
    let part = at(key(Some(json), "data"), 0);
    let cid = match as_i64(key(part, "cid")) {
        Some(cid) => cid,
        None => return Err(FetchError::ParseError("cid")),
    };
    let title = match as_string(key(part, "part")) {
        Some(title) => title,
        None => return Err(FetchError::ParseError("title")),
    };
    Ok((cid, title))
}

/// Reads the addresses of the first video stream
/// (`data.dash.video[0].baseUrl`) and the first audio stream
/// (`data.dash.audio[0].baseUrl`) from the answer of the play-url request.
/// A missing or mistyped field is `ParseError` naming it: `"video_url"` or
/// `"audio_url"`.
pub fn get_download_url(json: &JsonValue) -> (res: Result<(String, String), FetchError>)
    ensures
        match res {
            Ok((video, audio)) => download_url_spec(*json) == Ok::<
                (Seq<char>, Seq<char>),
                Seq<char>,
            >((video@, audio@)),
            Err(e) => e matches FetchError::ParseError(field) && download_url_spec(*json) == Err::<
                (Seq<char>, Seq<char>),
                Seq<char>,
            >(field@),
        },
{
    let dash = key(key(Some(json), "data"), "dash");
    let video = match as_string(key(at(key(dash, "video"), 0), "baseUrl")) {
        Some(url) => url,
        None => return Err(FetchError::ParseError("video_url")),
    };
    let audio = match as_string(key(at(key(dash, "audio"), 0), "baseUrl")) {
        Some(url) => url,
        None => return Err(FetchError::ParseError("audio_url")),
    };
    Ok((video, audio))
}

/// The part is read from the first entry of the page list, whatever
/// entries follow it: where `data` is a list whose first entry holds an
/// integer `cid` and a text `part`, those are the result.
pub proof fn law_info_reads_first_entry(
    json: JsonValue,
    entries: Vec<JsonValue>,
    first: Vec<(String, JsonValue)>,
    cid: JsonValue,
    title: String,
)
    requires
        json matches JsonValue::Object(members) && member_value(members@, "data"@) == Some(
            JsonValue::Array(entries),
        ),
        entries@.len() > 0,
        entries@[0] == JsonValue::Object(first),
        member_value(first@, "cid"@) == Some(cid),
        json_i64(cid) is Some,
        member_value(first@, "part"@) == Some(JsonValue::String(title)),
    ensures
        info_spec(json) == Ok::<(i64, Seq<char>), Seq<char>>((json_i64(cid)->0, title@)),
{
}

/// The stream addresses are read from the first video and the first audio
/// stream, whatever streams follow them: where `data.dash.video` and
/// `data.dash.audio` are lists whose first entries hold a text `baseUrl`,
/// those are the result.
pub proof fn law_download_url_reads_first_streams(
    json: JsonValue,
    data: Vec<(String, JsonValue)>,
    dash: Vec<(String, JsonValue)>,
    videos: Vec<JsonValue>,
    audios: Vec<JsonValue>,
    video: Vec<(String, JsonValue)>,
    audio: Vec<(String, JsonValue)>,
    video_url: String,
    audio_url: String,
)
    requires
        json matches JsonValue::Object(members) && member_value(members@, "data"@) == Some(
            JsonValue::Object(data),
        ),
        member_value(data@, "dash"@) == Some(JsonValue::Object(dash)),
        member_value(dash@, "video"@) == Some(JsonValue::Array(videos)),
        member_value(dash@, "audio"@) == Some(JsonValue::Array(audios)),
        videos@.len() > 0,
        audios@.len() > 0,
        videos@[0] == JsonValue::Object(video),
        audios@[0] == JsonValue::Object(audio),
        member_value(video@, "baseUrl"@) == Some(JsonValue::String(video_url)),
        member_value(audio@, "baseUrl"@) == Some(JsonValue::String(audio_url)),
    ensures
        download_url_spec(json) == Ok::<(Seq<char>, Seq<char>), Seq<char>>(
            (video_url@, audio_url@),
        ),
{
}

} // verus!
