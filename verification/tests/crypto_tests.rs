use aes_gcm::aead::{Aead, KeyInit};
use aes_gcm::{Aes256Gcm, Nonce};
use base64::engine::general_purpose;
use base64::Engine;
use nda_backend::crypto::{
    decrypt_content, encrypt_content, generate_key, is_valid_key, try_decrypt_content,
    try_encrypt_content, CryptoErrorKind,
};

#[test]
fn test_generated_key_is_valid() {
    let key = generate_key();
    assert!(is_valid_key(&key));
    let raw = general_purpose::STANDARD.decode(&key).unwrap();
    assert_eq!(raw.len(), 32);
}

#[test]
fn test_round_trip() {
    let key = generate_key();
    let content = "secret terms with unicode: crème brûlée ✓";
    let blob = encrypt_content(content, &key).unwrap();
    assert_ne!(blob, content);
    let recovered = decrypt_content(&blob, &key).unwrap();
    assert_eq!(recovered, content);
}

#[test]
fn test_round_trip_empty_plaintext() {
    let key = generate_key();
    let blob = encrypt_content("", &key).unwrap();
    assert_eq!(decrypt_content(&blob, &key).unwrap(), "");
}

#[test]
fn test_nonce_uniqueness() {
    let key = generate_key();
    let first = encrypt_content("same plaintext", &key).unwrap();
    let second = encrypt_content("same plaintext", &key).unwrap();
    assert_ne!(first, second);
}

#[test]
fn test_tamper_detection_every_byte() {
    let key = generate_key();
    let blob = encrypt_content("integrity matters", &key).unwrap();
    let raw = general_purpose::STANDARD.decode(&blob).unwrap();
    for i in 0..raw.len() {
        for bit in [0x01u8, 0x80u8] {
            let mut tampered = raw.clone();
            tampered[i] ^= bit;
            let tampered_blob = general_purpose::STANDARD.encode(&tampered);
            let result = decrypt_content(&tampered_blob, &key);
            assert!(result.is_err(), "tampered byte {i} decrypted successfully");
        }
    }
}

#[test]
fn test_wrong_key_fails_authentication() {
    let key = generate_key();
    let other = generate_key();
    let blob = encrypt_content("for one key only", &key).unwrap();
    let err = decrypt_content(&blob, &other).unwrap_err();
    assert_eq!(err.kind, CryptoErrorKind::Authentication);
}

#[test]
fn test_malformed_blob_errors() {
    let key = generate_key();
    let not_base64 = decrypt_content("!!!not base64!!!", &key).unwrap_err();
    assert_eq!(not_base64.kind, CryptoErrorKind::Integrity);
    // "AAAA" decodes to three bytes: too short to hold a nonce.
    let too_short = decrypt_content("AAAA", &key).unwrap_err();
    assert_eq!(too_short.kind, CryptoErrorKind::Integrity);
}

#[test]
fn test_garbage_of_nonce_length_fails_authentication() {
    let key = generate_key();
    let garbage = general_purpose::STANDARD.encode([7u8; 40]);
    let err = decrypt_content(&garbage, &key).unwrap_err();
    assert_eq!(err.kind, CryptoErrorKind::Authentication);
}

#[test]
fn test_non_text_plaintext_gives_encoding_error() {
    let key = generate_key();
    let key_bytes = general_purpose::STANDARD.decode(&key).unwrap();
    let cipher = Aes256Gcm::new_from_slice(&key_bytes).unwrap();
    let nonce_bytes = [9u8; 12];
    let nonce = Nonce::try_from(&nonce_bytes[..]).unwrap();
    // 0xFF 0xFE is not valid UTF-8.
    let sealed = cipher.encrypt(&nonce, [0xFFu8, 0xFEu8].as_ref()).unwrap();
    let mut data = nonce_bytes.to_vec();
    data.extend_from_slice(&sealed);
    let blob = general_purpose::STANDARD.encode(&data);
    let err = decrypt_content(&blob, &key).unwrap_err();
    assert_eq!(err.kind, CryptoErrorKind::Encoding);
}

#[test]
fn test_invalid_key_rejected_by_checked_variants() {
    let enc = try_encrypt_content("anything", "not a key").unwrap_err();
    assert_eq!(enc.kind, CryptoErrorKind::KeyDecode);
    // Valid base64, wrong length for a key.
    let short_key = general_purpose::STANDARD.encode([1u8; 16]);
    assert!(!is_valid_key(&short_key));
    let dec = try_decrypt_content("AAAA", &short_key).unwrap_err();
    assert_eq!(dec.kind, CryptoErrorKind::KeyDecode);
}

#[test]
fn test_checked_variants_match_plain_ones() {
    let key = generate_key();
    let blob = try_encrypt_content("checked", &key).unwrap();
    assert_eq!(try_decrypt_content(&blob, &key).unwrap(), "checked");
}
