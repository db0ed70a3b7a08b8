//! The HTTP request headers that the site is asked with, kept in an
//! `http::HeaderMap`, and their text for the downloader.
use vstd::prelude::*;
use vstd::string::*;
use vstd::utf8::encode_utf8;
use crate::errors::FetchError;

verus! {

/// `http::HeaderMap`, carried as it is; what it holds is
/// [`header_map_contents`].
#[verifier::external_type_specification]
#[verifier::external_body]
#[verifier::reject_recursive_types(T)]
pub struct ExHeaderMap<T>(http::HeaderMap<T>);

/// `http::HeaderValue`, carried as it is; its bytes are
/// [`header_value_bytes`].
#[verifier::external_type_specification]
#[verifier::external_body]
pub struct ExHeaderValue(http::HeaderValue);

/// What a header map holds: for each header name (as `HeaderName::as_str`
/// gives it, in lower case), the bytes of its values in the order they were
/// added.
pub uninterp spec fn header_map_contents(m: http::HeaderMap) -> Map<Seq<char>, Seq<Seq<u8>>>;

/// The bytes of a header value, as `HeaderValue::as_bytes` gives them.
pub uninterp spec fn header_value_bytes(v: http::HeaderValue) -> Seq<u8>;

/// A map that holds no header.
pub open spec fn no_headers() -> Map<Seq<char>, Seq<Seq<u8>>> {
    Map::empty()
}

/// A value that `http::HeaderValue::from_str` accepts: no control
/// character but the tab, and no DEL.
pub open spec fn valid_header_value_spec(s: Seq<char>) -> bool {
    forall|i: int|
        0 <= i < s.len() ==> ((' ' <= #[trigger] s[i] && s[i] != '\u{7f}') || s[i] == '\t')
}

/// Bytes that `http::HeaderValue::to_str` reads as text: visible ASCII or
/// tabs.
pub open spec fn visible_ascii_bytes(b: Seq<u8>) -> bool {
    forall|i: int| 0 <= i < b.len() ==> ((32 <= #[trigger] b[i] && b[i] < 127) || b[i] == 9)
}

/// A header name that `HeaderMap::insert` takes from a `&'static str`
/// without panicking: lower-case letters and dashes.
pub open spec fn plain_header_name(s: Seq<char>) -> bool {
    &&& 0 < s.len() < 64
    &&& forall|i: int| 0 <= i < s.len() ==> ('a' <= #[trigger] s[i] <= 'z' || s[i] == '-')
}

/// A map small enough that inserting one more name cannot reach
/// `HeaderMap`'s largest size.
pub open spec fn has_room(m: http::HeaderMap) -> bool {
    header_map_contents(m).dom().finite() && header_map_contents(m).dom().len() < 1024
}

/// `http::HeaderMap::new`: a map that holds no header.
#[verifier::external_body]
fn new_header_map() -> (res: http::HeaderMap)
    ensures
        header_map_contents(res) == no_headers(),
{
    http::HeaderMap::new()
}

/// `http::HeaderValue::from_str`: its source accepts exactly the strings
/// whose bytes are tabs or at least 32 and not 127, and keeps the string's
/// bytes.
#[verifier::external_body]
fn header_value(value: &str) -> (res: Result<http::HeaderValue, http::header::InvalidHeaderValue>)
    ensures
        res is Ok <==> valid_header_value_spec(value@),
        res matches Ok(v) ==> header_value_bytes(v) == encode_utf8(value@),
{
    http::HeaderValue::from_str(value)
}

/// `http::HeaderMap::insert` with a `&'static str` name: the name's values
/// are replaced by `value` alone. Its source panics on a name that is not
/// a valid lower-case header name, and when the map is full.
#[verifier::external_body]
fn insert_header(map: &mut http::HeaderMap, name: &'static str, value: http::HeaderValue)
    requires
        plain_header_name(name@),
        has_room(*old(map)),
    ensures
        header_map_contents(*final(map)) == header_map_contents(*old(map)).insert(
            name@,
            seq![header_value_bytes(value)],
        ),
{
    map.insert(name, value);
}

/// `http::HeaderMap::keys`: every name of the map once, as text.
#[verifier::external_body]
fn header_names(map: &http::HeaderMap) -> (res: Vec<String>)
    ensures
        forall|i: int| 0 <= i < res@.len() ==> header_map_contents(*map).dom().contains(
            #[trigger] res@[i]@,
        ),
        forall|k: Seq<char>| #[trigger]
            header_map_contents(*map).dom().contains(k) ==> exists|i: int|
                0 <= i < res@.len() && #[trigger] res@[i]@ == k,
        forall|i: int, j: int| 0 <= i < j < res@.len() ==> #[trigger] res@[i]@ != #[trigger] res@[j]@,
{
    map.keys().map(|k| k.as_str().to_string()).collect()
}

/// `http::HeaderMap::get_all`: the values of a name of the map, in the
/// order they were added.
#[verifier::external_body]
fn header_values(map: &http::HeaderMap, name: &str) -> (res: Vec<http::HeaderValue>)
    ensures
        header_map_contents(*map).dom().contains(name@) ==> res@.map_values(
            |v: http::HeaderValue| header_value_bytes(v),
        ) == header_map_contents(*map)[name@],
{
    map.get_all(name).iter().cloned().collect()
}

/// `http::HeaderValue::to_str`: the value as text where its bytes are all
/// visible ASCII or tabs, else nothing.
#[verifier::external_body]
fn header_value_text(value: &http::HeaderValue) -> (res: Option<String>)
    ensures
        res is Some <==> visible_ascii_bytes(header_value_bytes(*value)),
        res matches Some(s) ==> encode_utf8(s@) == header_value_bytes(*value),
{
    value.to_str().ok().map(|s| s.to_string())
}

/// The browser that requests present themselves as.
pub open spec fn user_agent_value() -> Seq<char> {
    "Mozilla/5.0 (Windows NT 10.0; Win64; x64) AppleWebKit/537.36 (KHTML, like Gecko) Chrome/91.0.4472.124 Safari/537.36"@
}

/// The site that requests come from.
pub open spec fn base_url() -> Seq<char> {
    "https://www.bilibili.com"@
}

/// The headers sent by default: the user agent, and the site as origin and
/// referer.
pub open spec fn default_headers_spec() -> Map<Seq<char>, Seq<Seq<u8>>> {
    no_headers().insert("user-agent"@, seq![encode_utf8(user_agent_value())]).insert(
        "origin"@,
        seq![encode_utf8(base_url())],
    ).insert("referer"@, seq![encode_utf8(base_url())])
}

/// The page of the video `bvid`.
pub open spec fn video_page_spec(bvid: Seq<char>) -> Seq<char> {
    "https://www.bilibili.com/video/"@ + bvid
}

/// The headers that the site's video services are asked with for `bvid`:
/// the default headers with the video's page as referer and the site as
/// origin.
pub open spec fn video_headers_spec(bvid: Seq<char>) -> Map<Seq<char>, Seq<Seq<u8>>> {
    default_headers_spec().insert("referer"@, seq![encode_utf8(video_page_spec(bvid))]).insert(
        "origin"@,
        seq![encode_utf8(base_url())],
    )
}

/// The headers for a video carry, each as its one value, the browser's user
/// agent, the address of the video's own page as referer, and the site as
/// origin; no other header.
pub proof fn law_video_headers(bvid: Seq<char>)
    ensures
        video_headers_spec(bvid).dom() == set!["user-agent"@, "referer"@, "origin"@],
        video_headers_spec(bvid)["referer"@] == seq![
            encode_utf8("https://www.bilibili.com/video/"@ + bvid),
        ],
        video_headers_spec(bvid)["origin"@] == seq![encode_utf8("https://www.bilibili.com"@)],
        video_headers_spec(bvid)["user-agent"@] == seq![encode_utf8(user_agent_value())],
{
    reveal_strlit("user-agent");
    reveal_strlit("referer");
    reveal_strlit("origin");
    assert("referer"@.len() != "origin"@.len());
    assert("user-agent"@.len() != "origin"@.len());
    assert("user-agent"@.len() != "referer"@.len());
    assert(video_headers_spec(bvid).dom() =~= set!["user-agent"@, "referer"@, "origin"@]);
}

/// The default headers carry the browser's user agent and the site as
/// origin and referer; no other header.
pub proof fn law_default_headers()
    ensures
        default_headers_spec().dom() == set!["user-agent"@, "referer"@, "origin"@],
        default_headers_spec()["referer"@] == seq![encode_utf8("https://www.bilibili.com"@)],
        default_headers_spec()["origin"@] == seq![encode_utf8("https://www.bilibili.com"@)],
{
    reveal_strlit("user-agent");
    reveal_strlit("referer");
    reveal_strlit("origin");
    assert(default_headers_spec().dom() =~= set!["user-agent"@, "referer"@, "origin"@]);
}

/// The last value in `vals` that is visible ASCII, if any.
pub open spec fn last_visible(vals: Seq<Seq<u8>>) -> Option<Seq<u8>>
    decreases vals.len(),
{
    if vals.len() == 0 {
        None
    } else if visible_ascii_bytes(vals.last()) {
        Some(vals.last())
    } else {
        last_visible(vals.drop_last())
    }
}

/// Whether `http::HeaderValue::from_str` accepts `s`.
pub fn valid_header_value(s: &str) -> (res: bool)
    ensures
        res == valid_header_value_spec(s@),
{
    let n = s.unicode_len();
    let mut i: usize = 0;
    while i < n
        invariant
            n == s@.len(),
            i <= n,
            forall|k: int| 0 <= k < i ==> ((' ' <= #[trigger] s@[k] && s@[k] != '\u{7f}') || s@[k] == '\t'),
        decreases n - i,
    {
        let c = s.get_char(i);
        if !((' ' <= c && c != '\u{7f}') || c == '\t') {
            return false;
        }
        i = i + 1;
    }
    true
}

/// Setting one name adds at most one name to a finite map's names.
proof fn lemma_insert_dom(m: Map<Seq<char>, Seq<Seq<u8>>>, k: Seq<char>, v: Seq<Seq<u8>>)
    requires
        m.dom().finite(),
    ensures
        m.insert(k, v).dom().finite(),
        m.insert(k, v).dom().len() <= m.dom().len() + 1,
{
    assert(m.insert(k, v).dom() =~= m.dom().insert(k));
}

/// The default headers have three names.
proof fn lemma_default_headers_small()
    ensures
        default_headers_spec().dom().finite(),
        default_headers_spec().dom().len() <= 3,
{
    let m0 = no_headers();
    assert(m0.dom() =~= Set::<Seq<char>>::empty());
    let m1 = m0.insert("user-agent"@, seq![encode_utf8(user_agent_value())]);
    lemma_insert_dom(m0, "user-agent"@, seq![encode_utf8(user_agent_value())]);
    let m2 = m1.insert("origin"@, seq![encode_utf8(base_url())]);
    lemma_insert_dom(m1, "origin"@, seq![encode_utf8(base_url())]);
    lemma_insert_dom(m2, "referer"@, seq![encode_utf8(base_url())]);
}

/// Sets `name` to a value that is known to be valid.
fn set_valid(map: &mut http::HeaderMap, name: &'static str, value: &str)
    requires
        plain_header_name(name@),
        has_room(*old(map)),
        valid_header_value_spec(value@),
    ensures
        header_map_contents(*final(map)) == header_map_contents(*old(map)).insert(
            name@,
            seq![encode_utf8(value@)],
        ),
        header_map_contents(*final(map)).dom().finite(),
        header_map_contents(*final(map)).dom().len() <= header_map_contents(*old(map)).dom().len()
            + 1,
{
    match header_value(value) {
        Ok(v) => insert_header(map, name, v),
        Err(_) => {},
    }
    proof {
        lemma_insert_dom(header_map_contents(*old(map)), name@, seq![encode_utf8(value@)]);
    }
}

/// The headers sent with every request: a desktop browser's user agent, and
/// the site as origin and referer.
pub fn generate_default_headers() -> (res: http::HeaderMap)
    ensures
        header_map_contents(res) == default_headers_spec(),
{
    proof {
        reveal_strlit("user-agent");
        reveal_strlit("origin");
        reveal_strlit("referer");
        reveal_strlit(
            "Mozilla/5.0 (Windows NT 10.0; Win64; x64) AppleWebKit/537.36 (KHTML, like Gecko) Chrome/91.0.4472.124 Safari/537.36",
        );
        reveal_strlit("https://www.bilibili.com");
    }
    let mut headers = new_header_map();
    assert(header_map_contents(headers).dom() =~= Set::<Seq<char>>::empty());
    set_valid(
        &mut headers,
        "user-agent",
        "Mozilla/5.0 (Windows NT 10.0; Win64; x64) AppleWebKit/537.36 (KHTML, like Gecko) Chrome/91.0.4472.124 Safari/537.36",
    );
    set_valid(&mut headers, "origin", "https://www.bilibili.com");
    set_valid(&mut headers, "referer", "https://www.bilibili.com");
    headers
}

/// The default headers with `referer` as referer instead of the site.
pub fn generate_default_headers_with_referer(referer: &str) -> (res: http::HeaderMap)
    requires
        valid_header_value_spec(referer@),
    ensures
        header_map_contents(res) == default_headers_spec().insert(
            "referer"@,
            seq![encode_utf8(referer@)],
        ),
{
    proof {
        reveal_strlit("referer");
    }
    let mut headers = generate_default_headers();
    proof {
        lemma_default_headers_small();
    }
    set_valid(&mut headers, "referer", referer);
    headers
}

/// The address of the page of the video `bvid`, sent as its referer.
pub fn video_page_url(bvid: &str) -> (res: String)
    ensures
        res@ == video_page_spec(bvid@),
{
    let mut url = String::from_str("https://www.bilibili.com/video/");
    url.append(bvid);
    url
}

/// The headers to ask the site's video services with for `bvid`: the
/// default headers, the video's page as referer and the site as origin.
/// Refused where the page's address is no valid header value.
pub fn video_request_headers(bvid: &str) -> (res: Result<http::HeaderMap, FetchError>)
    ensures
        res is Ok <==> valid_header_value_spec(video_page_spec(bvid@)),
        res matches Ok(m) ==> header_map_contents(m) == video_headers_spec(bvid@),
        res matches Err(e) ==> e is InvalidHeader,
{
    proof {
        reveal_strlit("referer");
        reveal_strlit("origin");
        reveal_strlit("https://www.bilibili.com");
    }
    let page = video_page_url(bvid);
    let mut headers = generate_default_headers();
    let referer = match header_value(page.as_str()) {
        Ok(v) => v,
        Err(e) => return Err(FetchError::InvalidHeader(e)),
    };
    proof {
        lemma_default_headers_small();
    }
    let ghost before = header_map_contents(headers);
    insert_header(&mut headers, "referer", referer);
    proof {
        lemma_insert_dom(before, "referer"@, seq![header_value_bytes(referer)]);
    }
    set_valid(&mut headers, "origin", "https://www.bilibili.com");
    Ok(headers)
}

/// Finds the last value of `vals` that is visible ASCII, as text.
fn last_visible_text(vals: &Vec<http::HeaderValue>) -> (res: Option<String>)
    ensures
        match res {
            Some(s) => last_visible(vals@.map_values(|v: http::HeaderValue| header_value_bytes(v)))
                == Some(encode_utf8(s@)),
            None => last_visible(
                vals@.map_values(|v: http::HeaderValue| header_value_bytes(v)),
            ) is None,
        },
{
    let ghost bytes = vals@.map_values(|v: http::HeaderValue| header_value_bytes(v));
    let mut i: usize = vals.len();
    assert(bytes.take(i as int) =~= bytes);
    while i > 0
        invariant
            i <= vals@.len(),
            bytes == vals@.map_values(|v: http::HeaderValue| header_value_bytes(v)),
            last_visible(bytes) == last_visible(bytes.take(i as int)),
        decreases i,
    {
        proof {
            assert(bytes.take(i as int).drop_last() =~= bytes.take(i - 1));
            assert(bytes.take(i as int).last() == bytes[i - 1]);
        }
        match header_value_text(&vals[i - 1]) {
            Some(s) => {
                return Some(s);
            },
            None => {},
        }
        i = i - 1;
    }
    proof {
        assert(bytes.take(0).len() == 0);
    }
    None
}

/// The headers as name-value pairs of text, as the downloader takes them:
/// each name once, with the last of its values that reads as visible ASCII;
/// a name with no such value is left out.
pub fn to_hashmap(header_map: &http::HeaderMap) -> (res: Vec<(String, String)>)
    ensures
        forall|i: int|
            0 <= i < res@.len() ==> {
                &&& header_map_contents(*header_map).dom().contains(#[trigger] res@[i].0@)
                &&& last_visible(header_map_contents(*header_map)[res@[i].0@]) == Some(
                    encode_utf8(res@[i].1@),
                )
            },
        forall|k: Seq<char>|
            #![trigger header_map_contents(*header_map)[k]]
            header_map_contents(*header_map).dom().contains(k) && last_visible(
                header_map_contents(*header_map)[k],
            ) is Some ==> exists|i: int| 0 <= i < res@.len() && #[trigger] res@[i].0@ == k,
        forall|i: int, j: int|
            0 <= i < j < res@.len() ==> #[trigger] res@[i].0@ != #[trigger] res@[j].0@,
{
    let ghost c = header_map_contents(*header_map);
    let names = header_names(header_map);
    let n = names.len();
    let mut out: Vec<(String, String)> = Vec::new();
    let ghost mut taken: Seq<int> = Seq::empty();
    let mut i: usize = 0;
    while i < n
        invariant
            n == names@.len(),
            i <= n,
            c == header_map_contents(*header_map),
            forall|a: int| 0 <= a < n ==> c.dom().contains(#[trigger] names@[a]@),
            forall|a: int, b: int| 0 <= a < b < n ==> #[trigger] names@[a]@ != #[trigger] names@[b]@,
            taken.len() == out@.len(),
            forall|q: int|
                0 <= q < out@.len() ==> 0 <= #[trigger] taken[q] < i && out@[q].0@
                    == names@[taken[q]]@,
            forall|q: int, r: int| 0 <= q < r < out@.len() ==> #[trigger] taken[q] < #[trigger] taken[r],
            forall|q: int|
                0 <= q < out@.len() ==> last_visible(c[#[trigger] out@[q].0@]) == Some(
                    encode_utf8(out@[q].1@),
                ),
            forall|a: int|
                0 <= a < i && last_visible(c[#[trigger] names@[a]@]) is Some ==> exists|q: int|
                    0 <= q < out@.len() && taken[q] == a,
        decreases n - i,
    {
        let vals = header_values(header_map, names[i].as_str());
        match last_visible_text(&vals) {
            Some(text) => {
                let ghost before = out@;
                let ghost old_taken = taken;
                out.push((names[i].clone(), text));
                proof {
                    taken = taken.push(i as int);
                    assert(out@[out@.len() - 1].0@ == names@[i as int]@);
                    assert forall|a: int|
                        0 <= a < i + 1 && last_visible(c[#[trigger] names@[a]@]) is Some implies exists|q: int|
                        0 <= q < out@.len() && taken[q] == a by {
                        if a < i {
                            let q = choose|q: int| 0 <= q < before.len() && old_taken[q] == a;
                            assert(taken[q] == a);
                        } else {
                            assert(taken[out@.len() - 1] == a);
                        }
                    }
                }
            },
            None => {},
        }
        i = i + 1;
    }
    proof {
        assert forall|q: int| 0 <= q < out@.len() implies header_map_contents(
            *header_map,
        ).dom().contains(#[trigger] out@[q].0@) by {
            assert(c.dom().contains(names@[taken[q]]@));
        }
        assert forall|k: Seq<char>|
            #![trigger header_map_contents(*header_map)[k]]
            header_map_contents(*header_map).dom().contains(k) && last_visible(
                header_map_contents(*header_map)[k],
            ) is Some implies exists|q: int| 0 <= q < out@.len() && #[trigger] out@[q].0@ == k by {
            let a = choose|a: int| 0 <= a < names@.len() && #[trigger] names@[a]@ == k;
            assert(last_visible(c[names@[a]@]) is Some);
            let q = choose|q: int| 0 <= q < out@.len() && taken[q] == a;
            assert(out@[q].0@ == k);
        }
        assert forall|q: int, r: int| 0 <= q < r < out@.len() implies #[trigger] out@[q].0@
            != #[trigger] out@[r].0@ by {
            assert(taken[q] < taken[r]);
        }
    }
    out
}

} // verus!
