//! Downloading a stream: checking where it comes from and goes to, and
//! passing the progress on at a steady pace.
use vstd::prelude::*;
use vstd::string::*;
use crate::paths::{parent_of, parent_path, opt_string_view};

verus! {

/// `url::Url`, carried as it is.
#[verifier::external_type_specification]
#[verifier::external_body]
pub struct ExUrl(url::Url);

/// `url::ParseError`, carried as it is.
#[verifier::external_type_specification]
#[verifier::external_body]
pub struct ExUrlParseError(url::ParseError);

/// `fast_down_ffi::Error`, carried as it is.
#[verifier::external_type_specification]
#[verifier::external_body]
pub struct ExDownloadError(fast_down_ffi::Error);

/// How many times a failed request is tried again.
pub const MAX_RETRY_TIMES: usize = 3;

/// How long to wait before trying a failed request again, in milliseconds.
pub const RETRY_GAP_MILLIS: u64 = 500;

/// How often the progress is passed on, in milliseconds.
pub const TICK_RATE_MILLIS: u128 = 100;

/// Why a download failed.
#[derive(Debug)]
pub enum DownloaderError {
    FilePathError(),
    InsufficientDiskSpaceError(String),
    UrlParseError(url::ParseError),
    DownloadError(Box<fast_down_ffi::Error>),
}

impl From<fast_down_ffi::Error> for DownloaderError {
    fn from(error: fast_down_ffi::Error) -> (res: Self) {
        DownloaderError::DownloadError(Box::new(error))
    }
}

impl vstd::std_specs::convert::FromSpecImpl<fast_down_ffi::Error> for DownloaderError {
    open spec fn obeys_from_spec() -> bool {
        true
    }

    open spec fn from_spec(error: fast_down_ffi::Error) -> Self {
        DownloaderError::DownloadError(Box::new(error))
    }
}

/// What `url::Url::parse` makes of the text `s`: the URL, or none where it
/// refuses the text.
pub uninterp spec fn parsed_url(s: Seq<char>) -> Option<url::Url>;

/// Whether `url::Url::parse` accepts `s`.
pub open spec fn url_parses(s: Seq<char>) -> bool {
    parsed_url(s) is Some
}

/// `url::Url::parse`: the address read as a URL, or why it is none. The
/// result depends on the text alone.
#[verifier::external_body]
fn parse_url(s: &str) -> (res: Result<url::Url, url::ParseError>)
    ensures
        match res {
            Ok(u) => parsed_url(s@) == Some(u),
            Err(_) => parsed_url(s@) is None,
        },
{
    url::Url::parse(s)
}

/// A checked download: its address, and the directory it is written into.
pub struct DownloadTarget {
    pub url: url::Url,
    pub parent_dir: String,
}

/// Checks a download before it starts: the address must read as a URL
/// (else `UrlParseError`), and the destination must have a parent
/// directory (else `FilePathError`).
pub fn prepare_download(url: &str, dest_path: &str) -> (res: Result<DownloadTarget, DownloaderError>)
    ensures
        res is Ok <==> url_parses(url@) && parent_path(dest_path@) is Some,
        !url_parses(url@) ==> (res matches Err(e) && e is UrlParseError),
        url_parses(url@) && parent_path(dest_path@) is None ==> (res matches Err(e)
            && e is FilePathError),
        res matches Ok(t) ==> parent_path(dest_path@) == Some(t.parent_dir@),
        res matches Ok(t) ==> parsed_url(url@) == Some(t.url),
{
    let url = match parse_url(url) {
        Ok(u) => u,
        Err(e) => return Err(DownloaderError::UrlParseError(e)),
    };
    let parent_dir = match parent_of(dest_path) {
        Some(p) => p,
        None => return Err(DownloaderError::FilePathError()),
    };
    Ok(DownloadTarget { url, parent_dir })
}

/// Whether it is time to pass the progress on, `elapsed_millis` after it
/// was last passed on.
pub fn tick_due(elapsed_millis: u128) -> (res: bool)
    ensures
        res == (elapsed_millis >= TICK_RATE_MILLIS),
{
    elapsed_millis >= TICK_RATE_MILLIS
}

/// The progress gathered since it was last passed on.
pub struct ProgressThrottle {
    pending: u64,
}

impl ProgressThrottle {
    /// The bytes gathered and not yet passed on.
    pub closed spec fn pending(&self) -> nat {
        self.pending as nat
    }

    /// Nothing gathered yet.
    pub fn new() -> (res: Self)
        ensures
            res.pending() == 0,
    {
        ProgressThrottle { pending: 0 }
    }

    /// Gathers `delta` more bytes; when `tick_due`, passes on all that was
    /// gathered and starts again from nothing.
    pub fn on_progress(&mut self, delta: u64, tick_due: bool) -> (res: Option<u64>)
        requires
            old(self).pending() + delta <= u64::MAX,
        ensures
            tick_due ==> res == Some((old(self).pending() + delta) as u64) && final(self).pending()
                == 0,
            !tick_due ==> res is None && final(self).pending() == old(self).pending() + delta,
    {
        self.pending = self.pending + delta;
        if tick_due {
            let all = self.pending;
            self.pending = 0;
            Some(all)
        } else {
            None
        }
    }

    /// At the end: passes on what is left, if anything is.
    pub fn finish(&mut self) -> (res: Option<u64>)
        ensures
            old(self).pending() > 0 ==> res == Some(old(self).pending() as u64),
            old(self).pending() == 0 ==> res is None,
            final(self).pending() == 0,
    {
        let left = self.pending;
        self.pending = 0;
        if left > 0 {
            Some(left)
        } else {
            None
        }
    }

    /// Whether `delta` more bytes can be gathered.
    pub fn can_take(&self, delta: u64) -> (res: bool)
        ensures
            res == (self.pending() + delta <= u64::MAX),
    {
        delta <= u64::MAX - self.pending
    }
}

} // verus!
