//! The errors of reading a video's page and the site's answers.
use vstd::prelude::*;

verus! {

/// `serde_json::Error`, carried as it is.
#[verifier::external_type_specification]
#[verifier::external_body]
pub struct ExJsonError(serde_json::Error);

/// `reqwest::Error`, carried as it is.
#[verifier::external_type_specification]
#[verifier::external_body]
pub struct ExRequestError(reqwest::Error);

/// `http::header::InvalidHeaderValue`, carried as it is.
#[verifier::external_type_specification]
#[verifier::external_body]
pub struct ExInvalidHeaderValue(http::header::InvalidHeaderValue);

/// Why reading a video's page failed.
#[derive(Debug)]
pub enum ExtractError {
    FailedToGetBvid,
    FailedToInitClient,
    EmptyHTMLResponse,
    FailedToParse,
    FailedToParseJSON(serde_json::Error),
    FailedToRequest(reqwest::Error),
}

/// Why reading a video's information failed.
#[derive(Debug)]
pub enum GetVideoInfoError {
    Error,
}

/// Why reading a collection of videos failed.
#[derive(Debug)]
pub enum GetVideoCollectionError {
    Error,
}

/// Why asking the site for a video's streams failed: the request, a header,
/// or a field missing from the answer (named by the variant's text).
#[derive(Debug)]
pub enum FetchError {
    Request(reqwest::Error),
    InvalidHeader(http::header::InvalidHeaderValue),
    ParseError(&'static str),
}

} // verus!
