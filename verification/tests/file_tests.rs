use vector_sdk::{calculate_file_hash, AttachmentFile};

#[test]
fn test_file_hash_calculation() {
    // Test SHA-256 hash calculation
    let test_data = b"Test data for hashing";
    let hash = calculate_file_hash(test_data);

    // Verify it's a valid hex string
    assert_eq!(hash.len(), 64);
    assert!(hash.chars().all(|c| c.is_ascii_hexdigit()));
}

#[test]
fn test_file_hash_exact_value() {
    // A known SHA-256 digest, as lowercase hex
    let hash = calculate_file_hash(b"abc");
    assert_eq!(
        hash,
        "ba7816bf8f01cfea414140de5dae2223b00361a396177a9cb410ff61f20015ad"
    );
}

#[test]
fn file_tests_test_file_hash_consistency() {
    // Test that same data produces same hash
    let test_data = b"Test data";
    let hash1 = calculate_file_hash(test_data);
    let hash2 = calculate_file_hash(test_data);

    assert_eq!(hash1, hash2);
}

#[test]
fn test_file_hash_different_data() {
    // Test that different data produces different hash
    let data1 = b"Test data 1";
    let data2 = b"Test data 2";
    let hash1 = calculate_file_hash(data1);
    let hash2 = calculate_file_hash(data2);

    assert_ne!(hash1, hash2);
}

#[test]
fn test_attachment_from_bytes() {
    // Test creating attachment from bytes
    let test_data = b"Test file content";
    let attachment = AttachmentFile::from_bytes(test_data.to_vec());

    assert_eq!(attachment.bytes.as_slice(), &test_data[..]);
    assert_eq!(attachment.extension, "bin"); // Default for unknown bytes
    assert!(attachment.img_meta.is_none());
}

#[test]
fn test_attachment_from_png_signature() {
    // A payload that opens with the PNG signature is recognized
    let mut png_bytes: Vec<u8> = vec![0x89, 0x50, 0x4e, 0x47, 0x0d, 0x0a, 0x1a, 0x0a];
    png_bytes.extend_from_slice(&[0u8; 64]);
    let attachment = AttachmentFile::from_bytes(png_bytes);
    assert_eq!(attachment.extension, "png");
}

#[test]
fn test_mime_type_detection() {
    // Test MIME type detection from extension
    let attachment = AttachmentFile::from_bytes(b"test".to_vec());
    assert_eq!(attachment.extension, "bin");

    // Test with different extensions
    let mut attachment = AttachmentFile::from_bytes(b"test".to_vec());
    attachment.extension = "txt".to_string();
}
