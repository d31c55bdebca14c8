use vector_sdk::attachment::attachment_tags;
use vector_sdk::auth::{build_auth_descriptor, encode_auth_header};
use vector_sdk::crypto::EncryptionParams;
use vector_sdk::metadata::MetadataConfig;
use vector_sdk::ImageMetadata;
use vector_sdk::digits::u64_to_dec_string;
use vector_sdk::hexcode::{hex_decode, hex_encode};
use vector_sdk::response::classify_response;
use vector_sdk::retry::UploadError;
use vector_sdk::upload::{UploadConfig, UploadParams};
use vector_sdk::urls::{parse_server_url, upload_endpoint};

#[test]
fn test_hex_encoding_round_trip() {
    assert_eq!(hex_encode(&[0xbe, 0xef]), "beef");
    assert_eq!(hex_encode(&[]), "");
    assert_eq!(hex_encode(&[0x00, 0x0a, 0xff]), "000aff");

    assert_eq!(hex_decode("beef"), Some(vec![0xbe, 0xef]));
    assert_eq!(hex_decode("BEEF"), Some(vec![0xbe, 0xef]));
    assert_eq!(hex_decode(""), Some(Vec::new()));
    assert_eq!(hex_decode("abc"), None); // odd length
    assert_eq!(hex_decode("zz"), None); // not hex digits
}

#[test]
fn test_decimal_text() {
    assert_eq!(u64_to_dec_string(0), "0");
    assert_eq!(u64_to_dec_string(7), "7");
    assert_eq!(u64_to_dec_string(65_536), "65536");
    assert_eq!(u64_to_dec_string(200_000), "200000");
    assert_eq!(u64_to_dec_string(u64::MAX), "18446744073709551615");
}

#[test]
fn test_auth_descriptor_binds_hash_and_window() {
    let d = build_auth_descriptor(b"abc", 1_000);
    assert_eq!(d.content, "Blossom upload authorization");
    assert_eq!(d.action, "upload");
    assert_eq!(
        d.content_hash_hex,
        "ba7816bf8f01cfea414140de5dae2223b00361a396177a9cb410ff61f20015ad"
    );
    assert_eq!(d.expires_at, 1_300);
}

#[test]
fn test_auth_header_encoding() {
    assert_eq!(encode_auth_header(b"hello"), "Nostr aGVsbG8=");
    assert_eq!(encode_auth_header(b""), "Nostr ");
}

#[test]
fn test_server_url_parsing() {
    assert_eq!(
        parse_server_url("https://example.com"),
        Some("https://example.com/".to_string())
    );
    assert_eq!(parse_server_url("not a url"), None);
    assert_eq!(parse_server_url(""), None);

    assert_eq!(
        upload_endpoint("https://example.com"),
        Some("https://example.com/upload".to_string())
    );
    assert_eq!(
        upload_endpoint("https://example.com/base/"),
        Some("https://example.com/base/upload".to_string())
    );
    assert_eq!(upload_endpoint("::nonsense::"), None);
}

#[test]
fn test_classify_response_success() {
    let body = "{\"url\":\"https://example.com/abc\",\"sha256\":\"ba7816bf8f01cfea414140de5dae2223b00361a396177a9cb410ff61f20015ad\",\"size\":3,\"uploaded\":1700000000}";
    let descriptor = classify_response(200, body).unwrap();
    assert_eq!(descriptor.url, "https://example.com/abc");
}

#[test]
fn test_classify_response_malformed_body() {
    match classify_response(200, "this is not json") {
        Err(UploadError::ProtocolError(m)) => assert_eq!(m, "Failed to parse response"),
        other => panic!("unexpected result: {other:?}"),
    }
}

#[test]
fn test_classify_response_bad_status() {
    match classify_response(404, "not found") {
        Err(UploadError::ProtocolError(m)) => {
            assert_eq!(m, "Upload failed with status 404: not found");
        }
        other => panic!("unexpected result: {other:?}"),
    }
}

#[test]
fn test_upload_defaults() {
    let config = UploadConfig::default();
    assert_eq!(config.connect_timeout, 5_000);
    assert_eq!(config.pool_idle_timeout, 90_000);
    assert_eq!(config.pool_max_idle_per_host, 2);
    assert_eq!(config.stall_threshold, 200);

    let params = UploadParams::default();
    assert_eq!(params.retry_count, 3);
    assert_eq!(params.retry_spacing, 2_000);
    assert_eq!(params.chunk_size, 64 * 1024);
}

#[test]
fn test_attachment_tags() {
    let params = EncryptionParams {
        key: "aa".repeat(32),
        nonce: "bb".repeat(16),
    };
    let tags = attachment_tags("image/png", 1_234, &params, "deadbeef", 567, &None);
    let expect: Vec<(String, String)> = vec![
        ("file-type".into(), "image/png".into()),
        ("size".into(), "1234".into()),
        ("encryption-algorithm".into(), "aes-gcm".into()),
        ("decryption-key".into(), "aa".repeat(32)),
        ("decryption-nonce".into(), "bb".repeat(16)),
        ("ox".into(), "deadbeef".into()),
        ("ms".into(), "567".into()),
    ];
    assert_eq!(tags, expect);

    let meta = ImageMetadata {
        blurhash: "LKO2?U%2Tw=w]~RBVZRi".to_string(),
        width: 640,
        height: 480,
    };
    let tags = attachment_tags("image/png", 1_234, &params, "deadbeef", 567, &Some(meta));
    assert_eq!(tags.len(), 9);
    assert_eq!(tags[7].0, "blurhash");
    assert_eq!(tags[7].1, "LKO2?U%2Tw=w]~RBVZRi");
    assert_eq!(tags[8].0, "dim");
    assert_eq!(tags[8].1, "640x480");
}

#[test]
fn test_metadata_builder() {
    let config = MetadataConfig::builder()
        .name("test".to_string())
        .display_name("Test".to_string())
        .about("Test bot".to_string())
        .picture("https://example.com/pic.png".to_string())
        .banner("https://example.com/banner.png".to_string())
        .nip05("test@example.com".to_string())
        .lud16("test@example.com".to_string())
        .build();

    assert_eq!(config.name, "test");
    assert_eq!(config.display_name, "Test");
    assert_eq!(config.about, "Test bot");
    assert_eq!(config.picture.as_deref(), Some("https://example.com/pic.png"));
    assert_eq!(
        config.banner.as_deref(),
        Some("https://example.com/banner.png")
    );
    assert_eq!(config.nip05.as_deref(), Some("test@example.com"));
    assert_eq!(config.lud16.as_deref(), Some("test@example.com"));
}
