//! Per-attempt authorization.
//!
//! Every attempt carries a freshly minted capability: a descriptor bound to
//! the SHA-256 hash of the encrypted payload and to the upload operation,
//! expiring 300 seconds after it was made.  The external signing capability
//! turns the descriptor into a signed event; its JSON form, base64-encoded
//! under the `Nostr` scheme, is the authorization header value.

use vstd::prelude::*;

use crate::hashing::{calculate_file_hash, spec_sha256};
use crate::hexcode::spec_hex_encode;

verus! {

use vstd::string::StringExecFns;

/// How long one capability stays valid, in seconds.
pub const AUTH_VALIDITY_SECS: u64 = 300;

/// The capability an attempt asks the signing capability to sign: one
/// operation, one content hash, one time window.
pub struct AuthDescriptor {
    /// Human-readable purpose of the capability.
    pub content: String,
    /// The operation authorized.
    pub action: String,
    /// Hex text of the SHA-256 hash of the payload the capability covers.
    pub content_hash_hex: String,
    /// Absolute expiration, seconds since the epoch.
    pub expires_at: u64,
}

/// Build the capability descriptor for one attempt on `payload`: bound to
/// the payload's SHA-256 hash and the upload operation, valid for 300
/// seconds from `now`.
pub fn build_auth_descriptor(payload: &[u8], now: u64) -> (d: AuthDescriptor)
    requires
        now + AUTH_VALIDITY_SECS <= u64::MAX,
    ensures
        d.content@ == "Blossom upload authorization"@,
        d.action@ == "upload"@,
        d.content_hash_hex@ == spec_hex_encode(spec_sha256(payload@)),
        d.expires_at == now + AUTH_VALIDITY_SECS,
{
    AuthDescriptor {
        content: String::from_str("Blossom upload authorization"),
        action: String::from_str("upload"),
        content_hash_hex: calculate_file_hash(payload),
        expires_at: now + AUTH_VALIDITY_SECS,
    }
}

/// The base64 form of a byte string under the standard padded alphabet.
pub uninterp spec fn spec_base64_standard(data: Seq<u8>) -> Seq<char>;

/// Relies on `base64::engine::general_purpose::STANDARD.encode`: the padded
/// standard alphabet, four output characters for every started group of
/// three input bytes, a function of the input alone.
#[verifier::external_body]
fn base64_encode(data: &[u8]) -> (r: String)
    ensures
        r@ == spec_base64_standard(data@),
        r@.len() == 4 * ((data@.len() + 2) / 3),
{
    base64::Engine::encode(&base64::engine::general_purpose::STANDARD, data)
}

/// The authorization header value for a signed capability: the scheme
/// `Nostr`, a space, and the base64 form of the signed event's JSON.
pub fn encode_auth_header(signed_event_json: &[u8]) -> (r: String)
    ensures
        r@ == "Nostr "@ + spec_base64_standard(signed_event_json@),
{
    let encoded = base64_encode(signed_event_json);
    let header = String::from_str("Nostr ").concat(encoded.as_str());
    header
}

} // verus!
