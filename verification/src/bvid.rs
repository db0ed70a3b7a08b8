//! The video id (`BV` and ten word characters) in a video's address.
use vstd::prelude::*;
use crate::paths::opt_string_view;

verus! {

/// The text of the leftmost-first match of the regular expression
/// `pattern` in `haystack`, as the `regex` crate finds it; none where the
/// pattern does not compile or does not match.
pub uninterp spec fn first_regex_match(pattern: Seq<char>, haystack: Seq<char>) -> Option<
    Seq<char>,
>;

/// Whether `part` occurs in `whole` as a contiguous run.
pub open spec fn occurs_in(part: Seq<char>, whole: Seq<char>) -> bool {
    exists|i: int|
        0 <= i && i + part.len() <= whole.len() && #[trigger] whole.subrange(i, i + part.len())
            == part
}

/// The pattern of a video id: `BV` and ten word characters, between word
/// boundaries.
pub open spec fn bvid_pattern() -> Seq<char> {
    "\\bBV\\w{10}\\b"@
}

/// `regex::Regex::new` on `pattern`, then `Regex::find` in `haystack`.
/// The crate documents `find` as returning the leftmost-first match, a
/// substring of the haystack; `\w` matches one character and `\b` none,
/// so a match of the video-id pattern is `BV` and ten more characters.
/// Which substring matches is not stated beyond that: it is named.
#[verifier::external_body]
fn find_first_match(pattern: &str, haystack: &str) -> (res: Option<String>)
    ensures
        opt_string_view(res) == first_regex_match(pattern@, haystack@),
        res matches Some(m) ==> occurs_in(m@, haystack@),
        pattern@ == bvid_pattern() ==> (res matches Some(m) ==> {
            &&& m@.len() == 12
            &&& m@[0] == 'B'
            &&& m@[1] == 'V'
        }),
{
    Some(regex::Regex::new(pattern).ok()?.find(haystack)?.as_str().to_owned())
}

/// The first video id in `url`, if there is one.
pub fn get_bvid_from_url(url: &str) -> (res: Option<String>)
    ensures
        opt_string_view(res) == first_regex_match(bvid_pattern(), url@),
        res matches Some(id) ==> {
            &&& occurs_in(id@, url@)
            &&& id@.len() == 12
            &&& id@[0] == 'B'
            &&& id@[1] == 'V'
        },
{
    find_first_match("\\bBV\\w{10}\\b", url)
}

} // verus!
