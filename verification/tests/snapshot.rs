use base64::engine::general_purpose::{STANDARD, URL_SAFE, URL_SAFE_NO_PAD};
use base64::Engine;
use nani_switch::crypto::{encrypt_token_with_iv, TokenError};
use nani_switch::snapshot::{jwt_user_id, snapshot_from_store_values};
use nani_switch::store::find_current_account_name;
use nani_switch::Accounts;

fn jwt(payload: &str) -> String {
    format!("header.{}.signature", URL_SAFE_NO_PAD.encode(payload))
}

#[test]
fn jwt_user_id_prefers_user_id_then_sub_then_id() {
    assert_eq!(jwt_user_id(&jwt(r#"{"userId":"u1","sub":"s1","id":"i1"}"#)), Some("u1".to_string()));
    assert_eq!(jwt_user_id(&jwt(r#"{"sub":"s1","id":"i1"}"#)), Some("s1".to_string()));
    assert_eq!(jwt_user_id(&jwt(r#"{"id":"i1"}"#)), Some("i1".to_string()));
    assert_eq!(jwt_user_id(&jwt(r#"{"id":7}"#)), None);
}

#[test]
fn jwt_user_id_accepts_padded_payloads() {
    let token = format!("h.{}.s", URL_SAFE.encode(r#"{"sub":"abc"}"#));
    assert_eq!(jwt_user_id(&token), Some("abc".to_string()));
}

#[test]
fn jwt_user_id_needs_a_payload() {
    assert_eq!(jwt_user_id("no-dots-here"), None);
    assert_eq!(jwt_user_id("a.!!!.c"), None);
    assert_eq!(jwt_user_id(&format!("a.{}", URL_SAFE_NO_PAD.encode(r#"{"sub":"tail"}"#))), Some("tail".to_string()));
}

#[test]
fn snapshot_reads_token_and_profile() {
    let path = r"C:\Users\Test\AppData\Roaming\Nani";
    let token = jwt(r#"{"sub":"from-jwt"}"#);
    let stored = encrypt_token_with_iv(&token, path, [5u8; 16]);
    let profile = r#"{"globalUserId":"g-1","email":"e@x.y","displayName":"Eve"}"#.to_string();
    let snapshot = snapshot_from_store_values(Some(stored.clone()), Some(profile), path.to_string(), 1_700_000_000)
        .unwrap()
        .unwrap();
    assert_eq!(snapshot.token, token);
    assert_eq!(snapshot.account.stored, stored);
    assert_eq!(snapshot.account.token.as_deref(), Some(token.as_str()));
    assert_eq!(snapshot.account.user_id.as_deref(), Some("g-1"));
    assert_eq!(snapshot.account.email.as_deref(), Some("e@x.y"));
    assert_eq!(snapshot.account.display_name.as_deref(), Some("Eve"));
    assert_eq!(snapshot.account.app_data_path, path);
    assert_eq!(snapshot.account.saved_at, 1_700_000_000);
}

#[test]
fn snapshot_falls_back_to_the_token_user_id() {
    let path = r"C:\Nani";
    let token = jwt(r#"{"userId":"from-jwt"}"#);
    let stored = encrypt_token_with_iv(&token, path, [5u8; 16]);
    let snapshot = snapshot_from_store_values(Some(stored), Some("not json".into()), path.to_string(), 42)
        .unwrap()
        .unwrap();
    assert_eq!(snapshot.account.user_id.as_deref(), Some("from-jwt"));
    assert_eq!(snapshot.account.email, None);
    let mut accounts = Accounts::new();
    accounts.insert("me".into(), snapshot.account.clone());
    assert_eq!(find_current_account_name(&accounts, Some(&snapshot)), Some("me".to_string()));
}

#[test]
fn no_stored_token_means_no_snapshot() {
    assert!(snapshot_from_store_values(None, None, String::new(), 0).unwrap().is_none());
}

#[test]
fn undecryptable_token_is_an_error() {
    let short = STANDARD.encode([1u8; 4]);
    assert!(matches!(
        snapshot_from_store_values(Some(short), None, String::new(), 0),
        Err(TokenError::InvalidEncryptedToken)
    ));
}
