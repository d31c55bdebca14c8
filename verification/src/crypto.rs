//! Payload encryption.
//!
//! A payload is sealed with AES-256-GCM under a freshly drawn random key and
//! 16-byte nonce before it leaves the machine.  Key and nonce travel as
//! lowercase hex text; the ciphertext carries the 16-byte authentication tag
//! appended at its end.

use vstd::prelude::*;

use crate::hexcode::{
    hex_decode, hex_encode, lemma_hex_encode_len, lemma_hex_round_trip, spec_hex_decode,
    spec_hex_valid,
};

verus! {

use vstd::string::StringExecFns;

/// Encryption parameters for AES-256-GCM: a 32-byte key and a 16-byte
/// nonce, both held as lowercase hex text.
#[derive(Debug, Clone)]
pub struct EncryptionParams {
    /// The encryption key (hex string)
    pub key: String,
    /// The initialization vector (nonce) (hex string)
    pub nonce: String,
}

/// Errors that can occur during encryption operations.
#[derive(Debug, Clone, PartialEq, Eq)]
pub enum CryptoError {
    /// Failed to generate random bytes
    RandomGenerationError,
    /// Invalid hex encoding
    HexEncodingError(String),
    /// AES-GCM encryption error
    AesGcmError(String),
    /// Generic error with message
    GenericError(String),
}

/// AES-GCM refuses plaintexts longer than 2^36 bytes.
pub const AES_GCM_MAX_PLAINTEXT_LEN: u64 = 0x10_0000_0000;

/// A key text is 64 hex digits: 32 bytes.
pub open spec fn spec_key_text_valid(s: Seq<char>) -> bool {
    spec_hex_valid(s) && s.len() == 64
}

/// A nonce text is 32 hex digits: 16 bytes.
pub open spec fn spec_nonce_text_valid(s: Seq<char>) -> bool {
    spec_hex_valid(s) && s.len() == 32
}

/// Parameters whose key and nonce decode to bytes of the right sizes.
pub open spec fn params_well_formed(p: &EncryptionParams) -> bool {
    spec_key_text_valid(p.key@) && spec_nonce_text_valid(p.nonce@)
}

/// What AES-256-GCM makes of a plaintext under a key and nonce: the
/// ciphertext with the 16-byte tag appended.  A function of its three
/// arguments alone.
pub uninterp spec fn spec_aes256gcm_seal(key: Seq<u8>, nonce: Seq<u8>, plaintext: Seq<u8>) -> Seq<
    u8,
>;

/// Relies on `aes_gcm::AesGcm::<Aes256, U16>::encrypt_in_place_detached`:
/// deterministic in key, nonce and plaintext; the buffer keeps its length
/// and the 16-byte tag is appended; the only failure is a plaintext longer
/// than the AES-GCM bound of 2^36 bytes.
#[verifier::external_body]
fn aes256gcm_seal(key: &[u8], nonce: &[u8], data: &[u8]) -> (r: Option<Vec<u8>>)
    requires
        key@.len() == 32,
        nonce@.len() == 16,
    ensures
        r is Some <==> data@.len() <= AES_GCM_MAX_PLAINTEXT_LEN,
        r matches Some(c) ==> c@ == spec_aes256gcm_seal(key@, nonce@, data@) && c@.len()
            == data@.len() + 16,
{
    let cipher: aes_gcm::AesGcm<aes::Aes256, generic_array::typenum::U16> =
        aes_gcm::KeyInit::new(generic_array::GenericArray::from_slice(key));
    let mut buffer = data.to_vec();
    match aes_gcm::AeadInPlace::encrypt_in_place_detached(
        &cipher,
        generic_array::GenericArray::from_slice(nonce),
        &[],
        &mut buffer,
    ) {
        Ok(tag) => {
            buffer.extend_from_slice(tag.as_slice());
            Some(buffer)
        },
        Err(_) => None,
    }
}

/// Relies on `rand::Rng::gen::<[u8; 32]>` on `ThreadRng`: 32 bytes from the
/// thread-local cryptographically secure generator.  Nothing is promised of
/// the values; a catastrophic generator failure surfaces as a panic inside
/// the generator itself, never as a silent default.
#[verifier::external_body]
fn random_key_bytes() -> (r: Vec<u8>)
    ensures
        r@.len() == 32,
{
    rand::Rng::gen::<[u8; 32]>(&mut rand::thread_rng()).to_vec()
}

/// Relies on `rand::Rng::gen::<[u8; 16]>` on `ThreadRng`: 16 bytes from the
/// thread-local cryptographically secure generator.
#[verifier::external_body]
fn random_nonce_bytes() -> (r: Vec<u8>)
    ensures
        r@.len() == 16,
{
    rand::Rng::gen::<[u8; 16]>(&mut rand::thread_rng()).to_vec()
}

/// Generates secure random encryption parameters (key and nonce).
///
/// The key is 32 random bytes and the nonce 16, both returned as lowercase
/// hex text, drawn fresh from a cryptographically secure generator.
pub fn generate_encryption_params() -> (r: Result<EncryptionParams, CryptoError>)
    ensures
        r matches Ok(p) && params_well_formed(&p),
{
    let key_bytes = random_key_bytes();
    let nonce_bytes = random_nonce_bytes();
    let key = hex_encode(key_bytes.as_slice());
    let nonce = hex_encode(nonce_bytes.as_slice());
    proof {
        lemma_hex_encode_len(key_bytes@);
        lemma_hex_round_trip(key_bytes@);
        lemma_hex_encode_len(nonce_bytes@);
        lemma_hex_round_trip(nonce_bytes@);
    }
    Ok(EncryptionParams { key, nonce })
}

/// Encrypts data using AES-256-GCM with a 16-byte nonce.
///
/// The ciphertext is exactly the sealed form of the plaintext under the
/// decoded key and nonce, with the 16-byte authentication tag appended.
/// A key that is not 64 hex digits or a nonce that is not 32 is rejected,
/// as is a plaintext over the AES-GCM length bound.
pub fn encrypt_data(data: &[u8], params: &EncryptionParams) -> (r: Result<Vec<u8>, CryptoError>)
    ensures
        r is Ok <==> params_well_formed(params) && data@.len() <= AES_GCM_MAX_PLAINTEXT_LEN,
        r matches Ok(c) ==> c@ == spec_aes256gcm_seal(
            spec_hex_decode(params.key@),
            spec_hex_decode(params.nonce@),
            data@,
        ) && c@.len() == data@.len() + 16,
        !spec_key_text_valid(params.key@) ==> (r matches Err(CryptoError::HexEncodingError(m))
            && m@ == "Invalid key"@),
        spec_key_text_valid(params.key@) && !spec_nonce_text_valid(params.nonce@) ==> (
        r matches Err(CryptoError::HexEncodingError(m)) && m@ == "Invalid nonce"@),
        params_well_formed(params) && data@.len() > AES_GCM_MAX_PLAINTEXT_LEN ==> (
        r matches Err(CryptoError::AesGcmError(m)) && m@
            == "Plaintext exceeds the AES-GCM length bound"@),
{
    let key_bytes = match hex_decode(params.key.as_str()) {
        Some(k) => k,
        None => {
            return Err(CryptoError::HexEncodingError(String::from_str("Invalid key")));
        },
    };
    if key_bytes.len() != 32 {
        return Err(CryptoError::HexEncodingError(String::from_str("Invalid key")));
    }
    let nonce_bytes = match hex_decode(params.nonce.as_str()) {
        Some(n) => n,
        None => {
            return Err(CryptoError::HexEncodingError(String::from_str("Invalid nonce")));
        },
    };
    if nonce_bytes.len() != 16 {
        return Err(CryptoError::HexEncodingError(String::from_str("Invalid nonce")));
    }
    match aes256gcm_seal(key_bytes.as_slice(), nonce_bytes.as_slice(), data) {
        Some(ciphertext) => Ok(ciphertext),
        None => Err(
            CryptoError::AesGcmError(
                String::from_str("Plaintext exceeds the AES-GCM length bound"),
            ),
        ),
    }
}

} // verus!
