//! Secret cipher behaviour with the real AES-256-GCM and base64 crates.

use base64::Engine;
use lumen_core::cipher::{SecretCipher, DecryptionError, CipherError};

fn test_cipher() -> SecretCipher {
    SecretCipher::new(vec![7u8; 32]).unwrap()
}

#[test]
fn test_encrypt_decrypt_roundtrip() {
    let original = "test-api-key-12345";
    let cipher = test_cipher();
    let encrypted = cipher.encrypt(original).unwrap();
    let decrypted = cipher.decrypt(&encrypted).unwrap();
    assert_eq!(original, decrypted);
}

#[test]
fn test_roundtrip_bytes() {
    let cipher = test_cipher();
    let data: Vec<u8> = vec![0, 255, 10, 13, 37, 128];
    let blob = cipher.encrypt_bytes(&data).unwrap();
    let opened = cipher.decrypt_bytes(&blob).unwrap();
    assert_eq!(opened, data);
}

#[test]
fn test_roundtrip_empty_and_unicode() {
    let cipher = test_cipher();
    for s in ["", "ünïcode ✓ text", "{\"access\":\"a b&c=d\"}"] {
        let blob = cipher.encrypt(s).unwrap();
        assert_eq!(cipher.decrypt(&blob).unwrap(), s);
    }
}

#[test]
fn test_decrypt_rejects_short_blob() {
    let cipher = test_cipher();
    // "AAAA" decodes to three zero bytes: shorter than a nonce plus one.
    assert_eq!(cipher.decrypt("AAAA"), Err(DecryptionError::TooShort));
}

#[test]
fn test_decrypt_rejects_invalid_base64() {
    let cipher = test_cipher();
    assert_eq!(
        cipher.decrypt("!!!not-base64!!!"),
        Err(DecryptionError::InvalidEncoding)
    );
}

#[test]
fn test_decrypt_rejects_flipped_byte() {
    let cipher = test_cipher();
    let blob = cipher.encrypt("attack at dawn").unwrap();
    let mut bytes = base64::engine::general_purpose::STANDARD
        .decode(&blob)
        .unwrap();
    // Flip one ciphertext byte (past the 12-byte nonce).
    bytes[14] ^= 0x01;
    let tampered = base64::engine::general_purpose::STANDARD.encode(&bytes);
    assert_eq!(
        cipher.decrypt(&tampered),
        Err(DecryptionError::AuthenticationFailed)
    );
}

#[test]
fn test_decrypt_rejects_wrong_key() {
    let cipher = test_cipher();
    let other = SecretCipher::new(vec![9u8; 32]).unwrap();
    let blob = cipher.encrypt("secret").unwrap();
    assert_eq!(
        other.decrypt(&blob),
        Err(DecryptionError::AuthenticationFailed)
    );
}

#[test]
fn test_new_rejects_bad_key_length() {
    assert!(matches!(
        SecretCipher::new(vec![1u8; 16]),
        Err(CipherError::BadKeyLength)
    ));
    assert!(SecretCipher::new(vec![1u8; 32]).is_ok());
}

#[test]
fn test_nonces_differ_between_calls() {
    let cipher = test_cipher();
    let a = cipher.encrypt("same plaintext").unwrap();
    let b = cipher.encrypt("same plaintext").unwrap();
    assert_ne!(a, b);
}
