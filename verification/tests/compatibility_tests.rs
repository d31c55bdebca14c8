use vector_sdk::calculate_file_hash;

#[test]
fn compatibility_tests_test_file_hash_consistency() {
    // Test that file hash calculation is consistent
    let test_data = b"Test data for hashing";
    let hash1 = calculate_file_hash(test_data);
    let hash2 = calculate_file_hash(test_data);

    assert_eq!(hash1, hash2);
    assert_eq!(hash1.len(), 64); // SHA-256 produces 64-character hex string
}
