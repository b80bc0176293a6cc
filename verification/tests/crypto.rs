use aes::cipher::{KeyIvInit, StreamCipher};
use base64::engine::general_purpose::STANDARD;
use base64::Engine;
use nani_switch::crypto::{decrypt_token, encrypt_token, encrypt_token_with_iv, has_prefix, TokenError};
use sha2::{Digest, Sha256};

#[test]
fn token_round_trip() {
    let token = "header.payload.signature";
    let path = r"C:\Users\Test\AppData\Roaming\Nani";
    let stored = encrypt_token(token, path).unwrap();
    assert_ne!(stored, token);
    assert_eq!(decrypt_token(&stored, path).unwrap(), token);
}

#[test]
fn encryption_matches_aes_ctr_under_the_folder_key() {
    let token = "header.payload.signature";
    let path = r"C:\Users\Test\AppData\Roaming\Nani";
    let iv = [7u8; 16];
    let stored = encrypt_token_with_iv(token, path, iv);

    let key: [u8; 32] = Sha256::digest(format!("{path}nn").as_bytes()).into();
    let mut body = token.as_bytes().to_vec();
    let mut cipher = ctr::Ctr128BE::<aes::Aes256>::new(&key.into(), &iv.into());
    cipher.apply_keystream(&mut body);
    let mut expected = iv.to_vec();
    expected.extend_from_slice(&body);
    assert_eq!(stored, STANDARD.encode(expected));
    assert_eq!(decrypt_token(&stored, path).unwrap(), token);
}

#[test]
fn the_key_depends_on_the_folder() {
    let stored = encrypt_token_with_iv("secret-token", r"C:\A", [1u8; 16]);
    assert_ne!(decrypt_token(&stored, r"C:\B").ok(), Some("secret-token".to_string()));
    assert_eq!(decrypt_token(&stored, r"C:\A").unwrap(), "secret-token");
}

#[test]
fn fresh_ivs_give_different_ciphertexts() {
    let path = r"C:\Nani";
    let first = encrypt_token("abc", path).unwrap();
    let second = encrypt_token("abc", path).unwrap();
    assert_eq!(decrypt_token(&first, path).unwrap(), "abc");
    assert_eq!(decrypt_token(&second, path).unwrap(), "abc");
    assert_eq!(STANDARD.decode(&first).unwrap().len(), 19);
}

#[test]
fn debug_tokens_are_kept_in_clear() {
    assert_eq!(decrypt_token("dbg-plain-token", "anything").unwrap(), "dbg-plain-token");
}

#[test]
fn invalid_base64_is_rejected() {
    assert_eq!(decrypt_token("not base64!", r"C:\Nani"), Err(TokenError::InvalidEncryptedToken));
}

#[test]
fn too_short_ciphertext_is_rejected() {
    let sixteen = STANDARD.encode([0u8; 16]);
    assert_eq!(decrypt_token(&sixteen, r"C:\Nani"), Err(TokenError::InvalidEncryptedToken));
}

#[test]
fn empty_token_does_not_round_trip() {
    let stored = encrypt_token("", r"C:\Nani").unwrap();
    assert_eq!(decrypt_token(&stored, r"C:\Nani"), Err(TokenError::InvalidEncryptedToken));
}

#[test]
fn non_utf8_plaintext_is_rejected() {
    let path = r"C:\Nani";
    let iv = [3u8; 16];
    let key: [u8; 32] = Sha256::digest(format!("{path}nn").as_bytes()).into();
    let mut body = vec![0xff, 0xfe, 0xfd];
    let mut cipher = ctr::Ctr128BE::<aes::Aes256>::new(&key.into(), &iv.into());
    cipher.apply_keystream(&mut body);
    let mut bytes = iv.to_vec();
    bytes.extend_from_slice(&body);
    assert_eq!(decrypt_token(&STANDARD.encode(bytes), path), Err(TokenError::NotUtf8));
}

#[test]
fn prefix_check_matches_starts_with() {
    assert!(has_prefix("dbg-x", "dbg-"));
    assert!(!has_prefix("dbg", "dbg-"));
    assert!(has_prefix("abc", ""));
    assert!(!has_prefix("xdbg-", "dbg-"));
}

#[test]
fn stored_token_is_the_iv_then_as_many_bytes_as_the_token() {
    let token = "header.payload.signature";
    let path = r"C:\Users\Test\AppData\Roaming\Nani";
    let stored = encrypt_token(token, path).unwrap();
    assert!(stored.chars().all(|c| c.is_ascii_alphanumeric() || c == '+' || c == '/' || c == '='));
    assert_ne!(stored, token);
    let decoded = STANDARD.decode(stored).unwrap();
    assert_eq!(decoded.len(), 40);
    let iv = [9u8; 16];
    let decoded = STANDARD.decode(encrypt_token_with_iv(token, path, iv)).unwrap();
    assert_eq!(&decoded[..16], &iv);
    assert_eq!(decoded.len(), 16 + token.len());
}
