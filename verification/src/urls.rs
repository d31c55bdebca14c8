//! Server URL validation and endpoint resolution.
//!
//! A candidate server is named by text; whether that text is an absolute
//! URL, and what the upload endpoint under it is, are questions the `url`
//! crate answers, deterministically in the text alone.

use vstd::prelude::*;

verus! {

/// The normalized form of an absolute URL, or nothing when the text does
/// not parse as one.
pub uninterp spec fn spec_url_normalized(s: Seq<char>) -> Option<Seq<char>>;

/// Relies on `url::Url::parse`: accepts exactly the absolute-URL texts and
/// normalizes them, a function of the text alone.
#[verifier::external_body]
pub fn parse_server_url(s: &str) -> (r: Option<String>)
    ensures
        r is Some <==> spec_url_normalized(s@) is Some,
        r matches Some(u) ==> spec_url_normalized(s@) == Some(u@),
{
    match url::Url::parse(s) {
        Ok(u) => Some(u.to_string()),
        Err(_) => None,
    }
}

/// The upload endpoint resolved against a server URL, or nothing when the
/// base does not parse.
pub uninterp spec fn spec_upload_endpoint(base: Seq<char>) -> Option<Seq<char>>;

/// Relies on `url::Url::parse` and `url::Url::join("upload")`: the upload
/// path resolved against the server URL, a function of the base text alone.
#[verifier::external_body]
pub fn upload_endpoint(server_url: &str) -> (r: Option<String>)
    ensures
        r is Some <==> spec_upload_endpoint(server_url@) is Some,
        r matches Some(u) ==> spec_upload_endpoint(server_url@) == Some(u@),
{
    match url::Url::parse(server_url) {
        Ok(u) => match u.join("upload") {
            Ok(endpoint) => Some(endpoint.to_string()),
            Err(_) => None,
        },
        Err(_) => None,
    }
}

} // verus!
