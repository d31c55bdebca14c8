//! Content hashing.
//!
//! Authorization tokens are bound to the SHA-256 hash of the encrypted
//! payload, carried as 64 lowercase hex digits.

use vstd::prelude::*;

use crate::hexcode::{hex_encode, lemma_hex_encode_len, spec_hex_encode};

verus! {

/// The SHA-256 digest of a byte string: a function of the input alone.
pub uninterp spec fn spec_sha256(data: Seq<u8>) -> Seq<u8>;

/// Relies on `sha2::Sha256`: a 32-byte digest, a function of the input
/// bytes alone.
#[verifier::external_body]
pub fn sha256_digest(data: &[u8]) -> (r: Vec<u8>)
    ensures
        r@ == spec_sha256(data@),
        r@.len() == 32,
{
    let mut hasher: sha2::Sha256 = sha2::Digest::new();
    sha2::Digest::update(&mut hasher, data);
    sha2::Digest::finalize(hasher).to_vec()
}

/// Calculate SHA-256 hash of file data.
///
/// Returns the digest as 64 lowercase hex digits.
pub fn calculate_file_hash(data: &[u8]) -> (r: String)
    ensures
        r@ == spec_hex_encode(spec_sha256(data@)),
        r@.len() == 64,
{
    let digest = sha256_digest(data);
    proof {
        lemma_hex_encode_len(digest@);
    }
    hex_encode(digest.as_slice())
}

} // verus!
