use vector_sdk::crypto::{encrypt_data, generate_encryption_params, CryptoError, EncryptionParams};

#[test]
fn test_encryption_params_generation() {
    // Test that encryption parameters can be generated
    let params = generate_encryption_params().unwrap();
    assert!(!params.key.is_empty());
    assert!(!params.nonce.is_empty());
}

#[test]
fn test_encryption_roundtrip() {
    // Test that data can be encrypted
    let test_data = b"Test data for encryption";
    let params = generate_encryption_params().unwrap();

    // Encrypt the data
    let encrypted = encrypt_data(test_data, &params).unwrap();

    // Verify encryption worked
    assert_ne!(encrypted.as_slice(), &test_data[..]);
    assert!(!encrypted.is_empty());
}

#[test]
fn test_encryption_with_different_keys() {
    // Test that different keys produce different encrypted data
    let test_data = b"Test data";
    let params1 = generate_encryption_params().unwrap();
    let params2 = generate_encryption_params().unwrap();

    let encrypted1 = encrypt_data(test_data, &params1).unwrap();
    let encrypted2 = encrypt_data(test_data, &params2).unwrap();

    assert_ne!(encrypted1, encrypted2);
}

#[test]
fn test_encryption_is_deterministic_under_fixed_params() {
    // The same key, nonce and plaintext seal to the same ciphertext
    let test_data = b"Test data";
    let params = generate_encryption_params().unwrap();

    let encrypted1 = encrypt_data(test_data, &params).unwrap();
    let encrypted2 = encrypt_data(test_data, &params).unwrap();

    assert_eq!(encrypted1, encrypted2);
    // The tag adds exactly sixteen bytes
    assert_eq!(encrypted1.len(), test_data.len() + 16);
}

#[test]
fn test_encryption_rejects_malformed_key() {
    // A key that is not hex text at all
    let params = EncryptionParams {
        key: "not hex".to_string(),
        nonce: "000102030405060708090a0b0c0d0e0f".to_string(),
    };
    match encrypt_data(b"data", &params) {
        Err(CryptoError::HexEncodingError(m)) => assert_eq!(m, "Invalid key"),
        other => panic!("unexpected result: {:?}", other),
    }

    // A key of valid hex but the wrong length
    let params = EncryptionParams {
        key: "00010203".to_string(),
        nonce: "000102030405060708090a0b0c0d0e0f".to_string(),
    };
    match encrypt_data(b"data", &params) {
        Err(CryptoError::HexEncodingError(m)) => assert_eq!(m, "Invalid key"),
        other => panic!("unexpected result: {:?}", other),
    }

    // A good key but a bad nonce
    let params = EncryptionParams {
        key: "000102030405060708090a0b0c0d0e0f000102030405060708090a0b0c0d0e0f".to_string(),
        nonce: "xyz".to_string(),
    };
    match encrypt_data(b"data", &params) {
        Err(CryptoError::HexEncodingError(m)) => assert_eq!(m, "Invalid nonce"),
        other => panic!("unexpected result: {:?}", other),
    }
}
