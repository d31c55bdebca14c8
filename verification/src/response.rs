//! Canonical reading of the server's answer to an upload.
//!
//! A transfer that came back at all ends in exactly one of two ways: status
//! 200 with a JSON blob descriptor, whose URL is the result, or anything
//! else, which is a protocol failure carrying the response text as its
//! diagnostic.

use vstd::prelude::*;

use crate::digits::{spec_dec_string, u64_to_dec_string};
use crate::retry::UploadError;

verus! {

use vstd::string::StringExecFns;

/// The server's canonical locator for the stored blob.
#[derive(Debug, Clone, PartialEq, Eq)]
pub struct BlobDescriptor {
    /// Where the blob can be fetched.
    pub url: String,
}

/// The URL field of the blob descriptor a response body parses to, or
/// nothing when the body is not a well-formed descriptor.
pub uninterp spec fn spec_blob_url(body: Seq<char>) -> Option<Seq<char>>;

/// Relies on `serde_json::from_str` for `nostr_blossom`'s blob descriptor:
/// the parse is a function of the body text alone, and the descriptor's
/// `url` field is what it yields.
#[verifier::external_body]
fn parse_blob_descriptor(body: &str) -> (r: Option<String>)
    ensures
        r is Some <==> spec_blob_url(body@) is Some,
        r matches Some(u) ==> spec_blob_url(body@) == Some(u@),
{
    match serde_json::from_str::<nostr_blossom::bud02::BlobDescriptor>(body) {
        Ok(descriptor) => Some(descriptor.url.to_string()),
        Err(_) => None,
    }
}

/// Read a finished transfer's response: status 200 with a well-formed
/// descriptor succeeds with its URL; a malformed body on 200 and every
/// other status are protocol failures, the latter carrying the status and
/// the response text as diagnostics.
pub fn classify_response(status: u16, body: &str) -> (r: Result<BlobDescriptor, UploadError>)
    ensures
        status == 200 && spec_blob_url(body@) is Some ==> (r matches Ok(d) && Some(d.url@)
            == spec_blob_url(body@)),
        status == 200 && spec_blob_url(body@) is None ==> (r matches Err(
            UploadError::ProtocolError(m),
        ) && m@ == "Failed to parse response"@),
        status != 200 ==> (r matches Err(UploadError::ProtocolError(m)) && m@
            == "Upload failed with status "@ + spec_dec_string(status as nat) + ": "@ + body@),
{
    if status == 200 {
        match parse_blob_descriptor(body) {
            Some(url) => Ok(BlobDescriptor { url }),
            None => Err(UploadError::ProtocolError(String::from_str("Failed to parse response"))),
        }
    } else {
        let message = String::from_str("Upload failed with status ").concat(
            u64_to_dec_string(status as u64).as_str(),
        ).concat(": ").concat(body);
        Err(UploadError::ProtocolError(message))
    }
}

} // verus!
