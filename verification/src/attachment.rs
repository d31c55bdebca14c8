//! File attachments and what is derived from their bytes.
//!
//! An attachment is a byte payload with a file extension and, for images,
//! display metadata.  The extension of an in-memory payload is inferred by
//! signature sniffing: the detected kind's lowercased name is searched for
//! the markers of the common formats, in a fixed priority order.  The tag
//! list that announces an uploaded attachment to its recipient is assembled
//! here too, entry by entry.

use vstd::prelude::*;

use crate::crypto::EncryptionParams;
use crate::digits::{spec_dec_string, u64_to_dec_string};

verus! {

use vstd::string::{StringExecFns, StringSliceAdditionalSpecFns};

/// Whether `needle` occurs contiguously anywhere in `hay`.
pub open spec fn spec_contains_sub(hay: Seq<u8>, needle: Seq<u8>) -> bool {
    exists|i: int|
        0 <= i && i + needle.len() <= hay.len() && #[trigger] hay.subrange(i, i + needle.len())
            == needle
}

/// Whether `needle` sits in `hay` at offset `i`.
fn matches_at(hay: &[u8], needle: &[u8], i: usize) -> (b: bool)
    requires
        i + needle@.len() <= hay@.len(),
    ensures
        b == (hay@.subrange(i as int, i + needle@.len()) == needle@),
{
    let n = needle.len();
    let hlen = hay.len();
    let mut j: usize = 0;
    while j < n
        invariant
            n == needle@.len(),
            hlen == hay@.len(),
            i + n <= hlen,
            j <= n,
            forall|k: int| 0 <= k < j ==> hay@[i + k] == needle@[k],
        decreases n - j,
    {
        if hay[i + j] != needle[j] {
            proof {
                assert(hay@.subrange(i as int, i + needle@.len())[j as int] == hay@[i + j]);
            }
            return false;
        }
        j = j + 1;
    }
    proof {
        assert(hay@.subrange(i as int, i + needle@.len()) =~= needle@);
    }
    true
}

/// Substring search: whether `needle` occurs anywhere in `hay`.
pub fn contains_sub(hay: &[u8], needle: &[u8]) -> (b: bool)
    ensures
        b == spec_contains_sub(hay@, needle@),
{
    if needle.len() > hay.len() {
        return false;
    }
    let last = hay.len() - needle.len();
    let mut i: usize = 0;
    loop
        invariant
            needle@.len() <= hay@.len(),
            last == hay@.len() - needle@.len(),
            i <= last,
            forall|k: int|
                0 <= k < i ==> #[trigger] hay@.subrange(k, k + needle@.len()) != needle@,
        ensures
            forall|k: int|
                0 <= k <= last ==> #[trigger] hay@.subrange(k, k + needle@.len()) != needle@,
        decreases last - i,
    {
        if matches_at(hay, needle, i) {
            return true;
        }
        if i == last {
            break ;
        }
        i = i + 1;
    }
    proof {
        if spec_contains_sub(hay@, needle@) {
            let w = choose|w: int|
                0 <= w && w + needle@.len() <= hay@.len() && #[trigger] hay@.subrange(
                    w,
                    w + needle@.len(),
                ) == needle@;
            assert(hay@.subrange(w, w + needle@.len()) != needle@);
        }
    }
    false
}

/// The name of the file kind the payload's signature matches: the detected
/// kind's debug form, lowercased, as bytes; nothing when no signature
/// matches.  A function of the payload alone.
pub uninterp spec fn spec_file_kind_name(bytes: Seq<u8>) -> Option<Seq<u8>>;

/// Relies on `magical_rs`'s `FileKind::match_types`, applied to the payload
/// head truncated at the crate's own recommended read length
/// (`with_bytes_read`, a constant of the crate that bounds every signature
/// check, so the truncation never changes a match).
#[verifier::external_body]
fn detect_file_kind(bytes: &[u8]) -> (r: Option<Vec<u8>>)
    ensures
        r is Some <==> spec_file_kind_name(bytes@) is Some,
        r matches Some(name) ==> spec_file_kind_name(bytes@) == Some(name@),
{
    let max = magical_rs::magical::bytes_read::with_bytes_read();
    let header = if bytes.len() > max {
        &bytes[..max]
    } else {
        bytes
    };
    magical_rs::magical::magic::FileKind::match_types(header)
        .map(|kind| format!("{:?}", kind).to_lowercase().into_bytes())
}

/// The extension the lowercased kind name maps to, in a fixed priority
/// order over the common image, audio, video and archive formats.
pub open spec fn spec_extension_for_kind(name: Seq<u8>) -> Option<Seq<char>> {
    if spec_contains_sub(name, "png".spec_bytes()) {
        Some("png"@)
    } else if spec_contains_sub(name, "jpeg".spec_bytes()) || spec_contains_sub(
        name,
        "jpg".spec_bytes(),
    ) {
        Some("jpg"@)
    } else if spec_contains_sub(name, "gif".spec_bytes()) {
        Some("gif"@)
    } else if spec_contains_sub(name, "webp".spec_bytes()) {
        Some("webp"@)
    } else if spec_contains_sub(name, "bmp".spec_bytes()) {
        Some("bmp"@)
    } else if spec_contains_sub(name, "tiff".spec_bytes()) || spec_contains_sub(
        name,
        "tif".spec_bytes(),
    ) {
        Some("tiff"@)
    } else if spec_contains_sub(name, "heic".spec_bytes()) || spec_contains_sub(
        name,
        "heif".spec_bytes(),
    ) {
        Some("heic"@)
    } else if spec_contains_sub(name, "wav".spec_bytes()) || spec_contains_sub(
        name,
        "wave".spec_bytes(),
    ) {
        Some("wav"@)
    } else if spec_contains_sub(name, "ogg".spec_bytes()) {
        Some("ogg"@)
    } else if spec_contains_sub(name, "flac".spec_bytes()) {
        Some("flac"@)
    } else if spec_contains_sub(name, "mp3".spec_bytes()) {
        Some("mp3"@)
    } else if spec_contains_sub(name, "m4a".spec_bytes()) {
        Some("m4a"@)
    } else if spec_contains_sub(name, "quicktime".spec_bytes()) || spec_contains_sub(
        name,
        "mov".spec_bytes(),
    ) {
        Some("mov"@)
    } else if spec_contains_sub(name, "mp4".spec_bytes()) {
        Some("mp4"@)
    } else if spec_contains_sub(name, "webm".spec_bytes()) {
        Some("webm"@)
    } else if spec_contains_sub(name, "matroska".spec_bytes()) || spec_contains_sub(
        name,
        "mkv".spec_bytes(),
    ) {
        Some("mkv"@)
    } else if spec_contains_sub(name, "avi".spec_bytes()) {
        Some("avi"@)
    } else if spec_contains_sub(name, "pdf".spec_bytes()) {
        Some("pdf"@)
    } else if spec_contains_sub(name, "zip".spec_bytes()) {
        Some("zip"@)
    } else if spec_contains_sub(name, "iso".spec_bytes()) {
        Some("iso"@)
    } else if spec_contains_sub(name, "7z".spec_bytes()) {
        Some("7z"@)
    } else if spec_contains_sub(name, "tar".spec_bytes()) {
        Some("tar"@)
    } else if spec_contains_sub(name, "gzip".spec_bytes()) || spec_contains_sub(
        name,
        "gz".spec_bytes(),
    ) {
        Some("gz"@)
    } else if spec_contains_sub(name, "bz2".spec_bytes()) {
        Some("bz2"@)
    } else if spec_contains_sub(name, "xz".spec_bytes()) {
        Some("xz"@)
    } else {
        None
    }
}

/// Infer a likely file extension from the payload's signature: the sniffed
/// kind name, mapped through the fixed priority order; nothing when the
/// signature is unknown or maps to no common format.
pub fn infer_extension_from_bytes(bytes: &[u8]) -> (r: Option<&'static str>)
    ensures
        match spec_file_kind_name(bytes@) {
            None => r is None,
            Some(name) => match spec_extension_for_kind(name) {
                None => r is None,
                Some(ext) => (r matches Some(e) && e@ == ext),
            },
        },
{
    let name = match detect_file_kind(bytes) {
        Some(n) => n,
        None => {
            return None;
        },
    };
    let s = name.as_slice();
    if contains_sub(s, "png".as_bytes()) {
        Some("png")
    } else if contains_sub(s, "jpeg".as_bytes()) || contains_sub(s, "jpg".as_bytes()) {
        Some("jpg")
    } else if contains_sub(s, "gif".as_bytes()) {
        Some("gif")
    } else if contains_sub(s, "webp".as_bytes()) {
        Some("webp")
    } else if contains_sub(s, "bmp".as_bytes()) {
        Some("bmp")
    } else if contains_sub(s, "tiff".as_bytes()) || contains_sub(s, "tif".as_bytes()) {
        Some("tiff")
    } else if contains_sub(s, "heic".as_bytes()) || contains_sub(s, "heif".as_bytes()) {
        Some("heic")
    } else if contains_sub(s, "wav".as_bytes()) || contains_sub(s, "wave".as_bytes()) {
        Some("wav")
    } else if contains_sub(s, "ogg".as_bytes()) {
        Some("ogg")
    } else if contains_sub(s, "flac".as_bytes()) {
        Some("flac")
    } else if contains_sub(s, "mp3".as_bytes()) {
        Some("mp3")
    } else if contains_sub(s, "m4a".as_bytes()) {
        Some("m4a")
    } else if contains_sub(s, "quicktime".as_bytes()) || contains_sub(s, "mov".as_bytes()) {
        Some("mov")
    } else if contains_sub(s, "mp4".as_bytes()) {
        Some("mp4")
    } else if contains_sub(s, "webm".as_bytes()) {
        Some("webm")
    } else if contains_sub(s, "matroska".as_bytes()) || contains_sub(s, "mkv".as_bytes()) {
        Some("mkv")
    } else if contains_sub(s, "avi".as_bytes()) {
        Some("avi")
    } else if contains_sub(s, "pdf".as_bytes()) {
        Some("pdf")
    } else if contains_sub(s, "zip".as_bytes()) {
        Some("zip")
    } else if contains_sub(s, "iso".as_bytes()) {
        Some("iso")
    } else if contains_sub(s, "7z".as_bytes()) {
        Some("7z")
    } else if contains_sub(s, "tar".as_bytes()) {
        Some("tar")
    } else if contains_sub(s, "gzip".as_bytes()) || contains_sub(s, "gz".as_bytes()) {
        Some("gz")
    } else if contains_sub(s, "bz2".as_bytes()) {
        Some("bz2")
    } else if contains_sub(s, "xz".as_bytes()) {
        Some("xz")
    } else {
        None
    }
}

/// Metadata about an image file.
#[derive(Debug, Clone)]
pub struct ImageMetadata {
    /// The Blurhash preview
    pub blurhash: String,
    /// Image pixel width
    pub width: u32,
    /// Image pixel height
    pub height: u32,
}

/// A file attachment with metadata.
#[derive(Debug, Clone)]
pub struct AttachmentFile {
    /// The file bytes
    pub bytes: Vec<u8>,
    /// Image metadata (for images only)
    pub img_meta: Option<ImageMetadata>,
    /// The file extension
    pub extension: String,
}

impl AttachmentFile {
    /// Create an AttachmentFile from in-memory bytes, inferring the
    /// extension by signature sniffing and falling back to "bin".
    pub fn from_bytes(bytes: Vec<u8>) -> (r: Self)
        ensures
            r.bytes@ == bytes@,
            r.img_meta is None,
            r.extension@ == (match spec_file_kind_name(bytes@) {
                None => "bin"@,
                Some(name) => match spec_extension_for_kind(name) {
                    None => "bin"@,
                    Some(ext) => ext,
                },
            }),
    {
        let extension = match infer_extension_from_bytes(bytes.as_slice()) {
            Some(e) => e.to_owned(),
            None => String::from_str("bin"),
        };
        AttachmentFile { bytes, img_meta: None, extension }
    }
}

/// The tag list that announces an uploaded attachment to its recipient:
/// the mime type, the encrypted size, the encryption algorithm, the key and
/// nonce the recipient decrypts with, the plain payload's hash, and a
/// millisecond-precision ordering tag; for an image, the blurhash preview
/// and the pixel dimensions follow.
pub fn attachment_tags(
    mime_type: &str,
    file_size: u64,
    params: &EncryptionParams,
    file_hash: &str,
    milliseconds: u64,
    img_meta: &Option<ImageMetadata>,
) -> (tags: Vec<(String, String)>)
    ensures
        tags@.len() == (if img_meta is Some {
            9int
        } else {
            7int
        }),
        tags@[0].0@ == "file-type"@ && tags@[0].1@ == mime_type@,
        tags@[1].0@ == "size"@ && tags@[1].1@ == spec_dec_string(file_size as nat),
        tags@[2].0@ == "encryption-algorithm"@ && tags@[2].1@ == "aes-gcm"@,
        tags@[3].0@ == "decryption-key"@ && tags@[3].1@ == params.key@,
        tags@[4].0@ == "decryption-nonce"@ && tags@[4].1@ == params.nonce@,
        tags@[5].0@ == "ox"@ && tags@[5].1@ == file_hash@,
        tags@[6].0@ == "ms"@ && tags@[6].1@ == spec_dec_string(milliseconds as nat),
        img_meta matches Some(m) ==> (tags@[7].0@ == "blurhash"@ && tags@[7].1@ == m.blurhash@
            && tags@[8].0@ == "dim"@ && tags@[8].1@ == spec_dec_string(m.width as nat) + "x"@
            + spec_dec_string(m.height as nat)),
{
    let mut tags: Vec<(String, String)> = Vec::new();
    tags.push((String::from_str("file-type"), mime_type.to_owned()));
    tags.push((String::from_str("size"), u64_to_dec_string(file_size)));
    tags.push((String::from_str("encryption-algorithm"), String::from_str("aes-gcm")));
    tags.push((String::from_str("decryption-key"), params.key.clone()));
    tags.push((String::from_str("decryption-nonce"), params.nonce.clone()));
    tags.push((String::from_str("ox"), file_hash.to_owned()));
    tags.push((String::from_str("ms"), u64_to_dec_string(milliseconds)));
    match img_meta {
        Some(m) => {
            tags.push((String::from_str("blurhash"), m.blurhash.clone()));
            let dim = u64_to_dec_string(m.width as u64).concat("x").concat(
                u64_to_dec_string(m.height as u64).as_str(),
            );
            tags.push((String::from_str("dim"), dim));
        },
        None => {},
    }
    tags
}

} // verus!
