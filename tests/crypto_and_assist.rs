use aes_gcm::aead::{Aead, KeyInit};
use aes_gcm::{Aes256Gcm, Key, Nonce};
use base64::engine::general_purpose;
use base64::Engine;
use trayme::assist::{analyze_screenshot, capture_screen, query_llm, LLMQuery};
use trayme::crypto::{decrypt_data, encrypt_data, encrypt_with_nonce};
use trayme::errors::AppError;

const ZERO_KEY: &str = "AAAAAAAAAAAAAAAAAAAAAAAAAAAAAAAAAAAAAAAAAAA=";

#[test]
fn sealing_empty_text_matches_known_tag() {
    let r = encrypt_with_nonce("", ZERO_KEY, &vec![0u8; 12]).unwrap();
    assert_eq!(r, "AAAAAAAAAAAAAAAAUw+K+8dFNrmpY7TxxMtziw==");
}

#[test]
fn encrypt_then_decrypt() {
    let sealed = encrypt_data("hello tray", ZERO_KEY).unwrap();
    assert_ne!(sealed, "hello tray");
    assert_eq!(decrypt_data(&sealed, ZERO_KEY).unwrap(), "hello tray");
}

#[test]
fn short_key_is_invalid_input() {
    let short = "AAAAAAAAAAAAAAAAAAAAAA==";
    assert!(matches!(encrypt_data("x", short), Err(AppError::InvalidInput(_))));
    assert!(matches!(encrypt_data("x", "!!not base64!!"), Err(AppError::InvalidInput(_))));
}

#[test]
fn decrypt_rejects_bad_input() {
    assert!(matches!(decrypt_data("!!", ZERO_KEY), Err(AppError::InvalidInput(_))));
    assert!(matches!(decrypt_data("AAAA", ZERO_KEY), Err(AppError::InvalidInput(_))));
    let sealed = encrypt_data("secret", ZERO_KEY).unwrap();
    assert!(matches!(decrypt_data(&sealed, "AAAA"), Err(AppError::InvalidInput(_))));
}

#[test]
fn tampered_data_fails_to_open() {
    let mut bytes = general_purpose::STANDARD
        .decode(encrypt_data("secret", ZERO_KEY).unwrap())
        .unwrap();
    let last = bytes.len() - 1;
    bytes[last] ^= 1;
    let tampered = general_purpose::STANDARD.encode(bytes);
    assert!(matches!(decrypt_data(&tampered, ZERO_KEY), Err(AppError::Encryption(_))));
}

#[test]
fn non_utf8_plaintext_is_serialization_error() {
    let cipher = Aes256Gcm::new(Key::<Aes256Gcm>::from_slice(&[0u8; 32]));
    let ct = cipher.encrypt(Nonce::from_slice(&[0u8; 12]), &[0xffu8, 0xfe][..]).unwrap();
    let mut sealed = vec![0u8; 12];
    sealed.extend_from_slice(&ct);
    let text = general_purpose::STANDARD.encode(sealed);
    assert!(matches!(decrypt_data(&text, ZERO_KEY), Err(AppError::Serialization(_))));
}

#[test]
fn placeholder_assistant() {
    let r = query_llm(&LLMQuery { prompt: "hi".to_string(), context: None });
    assert_eq!(r.response, "Placeholder response for: hi");
    assert_eq!(r.model, "placeholder-model");
    assert!(capture_screen().is_empty());
    let a = analyze_screenshot(&vec![1, 2, 3]);
    assert_eq!(a.description, "Placeholder screenshot analysis");
    assert!(a.elements.is_empty() && a.suggestions.is_empty());
}
