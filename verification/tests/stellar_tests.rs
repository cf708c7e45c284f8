use nda_backend::stellar::StellarClient;

#[test]
fn test_create_account() {
    let client = StellarClient::new();
    let keypair = client.create_account().unwrap();

    assert!(client.validate_stellar_public_key(&keypair.public_key));
    assert!(client.validate_stellar_secret_key(&keypair.secret_key));
    assert!(keypair.public_key.starts_with('G'));
    assert!(keypair.secret_key.starts_with('S'));
}

#[test]
fn test_send_transaction() {
    let client = StellarClient::new();
    let tx_hash = client
        .send_access_transaction("STEST123...", "GTEST456...", "process_123")
        .unwrap();

    assert!(tx_hash.starts_with("mock_tx_"));
}

#[test]
fn test_verify_transaction() {
    let client = StellarClient::new();
    let result = client
        .verify_access_transaction("GTEST123...", "GTEST456...", "process_123")
        .unwrap();

    assert_eq!(result, true);
}

#[test]
fn test_mock_keys_are_distinct_and_well_formed() {
    let client = StellarClient::new();
    let a = client.create_account().unwrap();
    let b = client.create_account().unwrap();
    assert_eq!(a.public_key.chars().count(), 56);
    assert_eq!(a.secret_key.chars().count(), 56);
    assert_ne!(a.public_key, b.public_key);
    assert!(!client.validate_stellar_public_key("GSHORT"));
    assert!(!client.validate_stellar_secret_key(&a.public_key));
}

#[test]
fn test_send_transaction_hash_shape() {
    let client = StellarClient::new();
    let one = client
        .send_access_transaction("S1", "G1", "p1")
        .unwrap();
    let two = client
        .send_access_transaction("S1", "G1", "p1")
        .unwrap();
    assert_eq!(one.chars().count(), 24);
    assert_ne!(one, two);
}

#[test]
fn test_get_account_transactions_mock_page() {
    let client = StellarClient::new();
    let txs = client.get_account_transactions("GANY").unwrap();
    assert_eq!(txs, vec!["mock_tx_abc123", "mock_tx_def456", "mock_tx_ghi789"]);
}
