//! Hexadecimal text form of byte strings.
//!
//! Keys, nonces and content hashes travel as lowercase hex text.  The
//! encoding and decoding themselves are done by the `hex` crate; the spec
//! functions here state exactly what those calls return, so that callers
//! can reason about the text form byte by byte.

use vstd::prelude::*;

verus! {

/// The sixteen lowercase hex digits, indexed by value.
pub open spec fn spec_hex_digit_char(v: u8) -> char
    recommends
        v < 16,
{
    seq!['0', '1', '2', '3', '4', '5', '6', '7', '8', '9', 'a', 'b', 'c', 'd', 'e', 'f'][v as int]
}

/// Lowercase hex encoding: two digits per byte, high nibble first.
pub open spec fn spec_hex_encode(bytes: Seq<u8>) -> Seq<char> {
    Seq::new(
        bytes.len() * 2,
        |i: int|
            if i % 2 == 0 {
                spec_hex_digit_char(bytes[i / 2] >> 4)
            } else {
                spec_hex_digit_char(bytes[i / 2] & 0x0f)
            },
    )
}

/// Characters accepted by hex decoding: digits and letters of either case.
pub open spec fn spec_is_hex_digit(c: char) -> bool {
    ('0' <= c && c <= '9') || ('a' <= c && c <= 'f') || ('A' <= c && c <= 'F')
}

/// The value of one hex digit.
pub open spec fn spec_hex_digit_val(c: char) -> u8
    recommends
        spec_is_hex_digit(c),
{
    if '0' <= c && c <= '9' {
        ((c as u32) - ('0' as u32)) as u8
    } else if 'a' <= c && c <= 'f' {
        ((c as u32) - ('a' as u32) + 10) as u8
    } else {
        ((c as u32) - ('A' as u32) + 10) as u8
    }
}

/// A string decodes as hex exactly when its length is even and every
/// character is a hex digit.
pub open spec fn spec_hex_valid(s: Seq<char>) -> bool {
    &&& s.len() % 2 == 0
    &&& forall|i: int| 0 <= i < s.len() ==> spec_is_hex_digit(#[trigger] s[i])
}

/// The bytes a valid hex string decodes to: one byte per digit pair.
pub open spec fn spec_hex_decode(s: Seq<char>) -> Seq<u8>
    recommends
        spec_hex_valid(s),
{
    Seq::new(
        s.len() / 2,
        |i: int| (spec_hex_digit_val(s[2 * i]) * 16 + spec_hex_digit_val(s[2 * i + 1])) as u8,
    )
}

/// Relies on `hex::encode`: two lowercase digits per byte, high nibble first.
#[verifier::external_body]
pub fn hex_encode(data: &[u8]) -> (r: String)
    ensures
        r@ == spec_hex_encode(data@),
{
    hex::encode(data)
}

/// Relies on `hex::decode`: accepts exactly the even-length strings made of
/// hex digits of either case, and yields one byte per digit pair.
#[verifier::external_body]
pub fn hex_decode(s: &str) -> (r: Option<Vec<u8>>)
    ensures
        r is Some <==> spec_hex_valid(s@),
        r matches Some(v) ==> v@ == spec_hex_decode(s@),
{
    hex::decode(s).ok()
}

/// The hex form of a byte string is twice as long.
pub proof fn lemma_hex_encode_len(bytes: Seq<u8>)
    ensures
        spec_hex_encode(bytes).len() == 2 * bytes.len(),
{
}

/// A hex encoding is always a valid input for hex decoding, and decoding
/// gives the bytes back: the text form loses nothing.
pub proof fn lemma_hex_round_trip(bytes: Seq<u8>)
    ensures
        spec_hex_valid(spec_hex_encode(bytes)),
        spec_hex_decode(spec_hex_encode(bytes)) == bytes,
{
    let enc = spec_hex_encode(bytes);
    assert forall|i: int| 0 <= i < enc.len() implies spec_is_hex_digit(#[trigger] enc[i]) by {
        let b = bytes[i / 2];
        assert((b >> 4) < 16 && (b & 0x0f) < 16) by (bit_vector);
    }
    assert forall|i: int| 0 <= i < bytes.len() implies spec_hex_decode(enc)[i] == bytes[i] by {
        let b = bytes[i];
        assert(enc[2 * i] == spec_hex_digit_char(b >> 4));
        assert(enc[2 * i + 1] == spec_hex_digit_char(b & 0x0f));
        assert((b >> 4) < 16 && (b & 0x0f) < 16 && ((b >> 4) * 16 + (b & 0x0f)) == b)
            by (bit_vector);
    }
    assert(spec_hex_decode(enc) =~= bytes);
}

} // verus!
