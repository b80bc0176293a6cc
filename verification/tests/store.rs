use nani_switch::crypto::{encrypt_token_with_iv, TokenError};
use nani_switch::store::{
    account_token, delete_account, find_current_account_name, require_account_token, save_current_account, unix_seconds,
    StoreError,
};
use nani_switch::{Account, Accounts, CurrentSnapshot};

fn account(id: &str) -> Account {
    Account {
        stored: format!("stored-{id}"),
        token: Some(format!("token-{id}")),
        user_id: Some(id.into()),
        email: None,
        display_name: None,
        saved_at: 1,
        app_data_path: r"C:\Nani".into(),
    }
}

fn bare(saved_at: i64, token: &str) -> Account {
    Account {
        stored: "stored".into(),
        token: Some(token.into()),
        user_id: None,
        email: None,
        display_name: None,
        saved_at,
        app_data_path: r"C:\Nani".into(),
    }
}

fn snapshot_of(account: Account) -> CurrentSnapshot {
    let token = account.token.clone().unwrap();
    CurrentSnapshot { account, token }
}

fn names(accounts: &Accounts) -> Vec<String> {
    accounts.keys().cloned().collect()
}

#[test]
fn current_account_is_found_by_user_id() {
    let mut accounts = Accounts::new();
    accounts.insert("first".into(), account("1"));
    accounts.insert("second".into(), account("2"));
    let mut seen = account("2");
    seen.token = Some("other".into());
    let snapshot = snapshot_of(seen);
    assert_eq!(find_current_account_name(&accounts, Some(&snapshot)), Some("second".to_string()));
}

#[test]
fn current_account_is_found_by_email() {
    let mut accounts = Accounts::new();
    let mut saved = bare(1, "a");
    saved.email = Some("me@example.com".into());
    accounts.insert("mine".into(), saved);
    let mut seen = bare(2, "b");
    seen.email = Some("me@example.com".into());
    assert_eq!(find_current_account_name(&accounts, Some(&snapshot_of(seen))), Some("mine".to_string()));
}

#[test]
fn current_account_is_found_by_token() {
    let mut accounts = Accounts::new();
    accounts.insert("a".into(), bare(1, "tok-a"));
    accounts.insert("b".into(), bare(1, "tok-b"));
    assert_eq!(find_current_account_name(&accounts, Some(&snapshot_of(bare(5, "tok-b")))), Some("b".to_string()));
}

#[test]
fn current_account_is_found_by_decrypted_token() {
    let path = r"C:\Nani";
    let mut accounts = Accounts::new();
    let mut saved = bare(1, "");
    saved.token = None;
    saved.stored = encrypt_token_with_iv("tok-z", path, [9u8; 16]);
    accounts.insert("z".into(), saved);
    assert_eq!(find_current_account_name(&accounts, Some(&snapshot_of(bare(5, "tok-z")))), Some("z".to_string()));
}

#[test]
fn no_current_account_without_snapshot_or_match() {
    let mut accounts = Accounts::new();
    accounts.insert("a".into(), bare(1, "tok-a"));
    assert_eq!(find_current_account_name(&accounts, None), None);
    assert_eq!(find_current_account_name(&accounts, Some(&snapshot_of(bare(5, "tok-x")))), None);
}

#[test]
fn first_matching_account_wins() {
    let mut accounts = Accounts::new();
    accounts.insert("early".into(), bare(1, "same"));
    accounts.insert("late".into(), bare(2, "same"));
    assert_eq!(find_current_account_name(&accounts, Some(&snapshot_of(bare(5, "same")))), Some("early".to_string()));
}

#[test]
fn saving_a_new_login_uses_its_email() {
    let mut accounts = Accounts::new();
    let mut seen = bare(7, "t1");
    seen.email = Some("a@b.c".into());
    seen.display_name = Some("Display".into());
    let (name, updated) = save_current_account(&mut accounts, snapshot_of(seen));
    assert_eq!(name, "a@b.c");
    assert!(!updated);
    assert_eq!(names(&accounts), ["a@b.c"]);
}

#[test]
fn saving_falls_back_to_display_name_then_user_id() {
    let mut accounts = Accounts::new();
    let mut seen = bare(7, "t1");
    seen.display_name = Some("Display".into());
    seen.user_id = Some("uid".into());
    assert_eq!(save_current_account(&mut accounts, snapshot_of(seen)).0, "Display");
    let mut other = bare(7, "t2");
    other.user_id = Some("uid2".into());
    assert_eq!(save_current_account(&mut accounts, snapshot_of(other)).0, "uid2");
}

#[test]
fn saving_without_profile_uses_the_save_time() {
    let mut accounts = Accounts::new();
    assert_eq!(save_current_account(&mut accounts, snapshot_of(bare(1700000000, "t1"))).0, "account-1700000000");
    assert_eq!(save_current_account(&mut accounts, snapshot_of(bare(-5, "t2"))).0, "account--5");
    assert_eq!(
        save_current_account(&mut accounts, snapshot_of(bare(i64::MIN, "t3"))).0,
        "account--9223372036854775808"
    );
}

#[test]
fn taken_names_get_the_first_free_suffix() {
    let mut accounts = Accounts::new();
    accounts.insert("x".into(), bare(1, "t1"));
    accounts.insert("x-2".into(), bare(1, "t2"));
    accounts.insert("x-4".into(), bare(1, "t4"));
    let mut seen = bare(1, "new");
    seen.email = Some("x".into());
    let (name, updated) = save_current_account(&mut accounts, snapshot_of(seen.clone()));
    assert_eq!(name, "x-3");
    assert!(!updated);
    let mut again = bare(1, "newer");
    again.email = Some("x".into());
    again.user_id = None;
    let snapshot = CurrentSnapshot { account: again, token: "newer".into() };
    // The email matches the account saved as "x", so that one is updated.
    let (name, updated) = save_current_account(&mut accounts, snapshot);
    assert_eq!(name, "x-3");
    assert!(updated);
    assert_eq!(names(&accounts), ["x", "x-2", "x-4", "x-3"]);
}

#[test]
fn saving_an_existing_login_updates_it_in_place() {
    let mut accounts = Accounts::new();
    accounts.insert("first".into(), account("1"));
    accounts.insert("second".into(), account("2"));
    accounts.insert("third".into(), account("3"));
    let mut refreshed = account("2");
    refreshed.token = Some("fresh".into());
    refreshed.saved_at = 99;
    let (name, updated) = save_current_account(&mut accounts, snapshot_of(refreshed));
    assert_eq!(name, "second");
    assert!(updated);
    assert_eq!(names(&accounts), ["first", "second", "third"]);
    assert_eq!(accounts["second"].saved_at, 99);
    assert_eq!(require_account_token(&accounts, "second").unwrap(), "fresh");
}

#[test]
fn saved_login_is_then_current() {
    let mut accounts = Accounts::new();
    accounts.insert("a".into(), bare(1, "tok-a"));
    let snapshot = snapshot_of(bare(3, "tok-new"));
    let (name, _) = save_current_account(&mut accounts, snapshot.clone());
    assert_eq!(find_current_account_name(&accounts, Some(&snapshot)), Some(name));
}

#[test]
fn deleting_removes_only_that_account() {
    let mut accounts = Accounts::new();
    accounts.insert("first".into(), account("1"));
    accounts.insert("second".into(), account("2"));
    accounts.insert("third".into(), account("3"));
    assert!(delete_account(&mut accounts, "second"));
    assert_eq!(names(&accounts), ["first", "third"]);
    assert!(!delete_account(&mut accounts, "second"));
    assert!(matches!(require_account_token(&accounts, "second"), Err(StoreError::AccountNotFound(n)) if n == "second"));
    assert_eq!(require_account_token(&accounts, "third").unwrap(), "token-3");
}

#[test]
fn token_lookup_errors() {
    let mut accounts = Accounts::new();
    let mut broken = bare(1, "");
    broken.token = None;
    broken.stored = "***".into();
    accounts.insert("broken".into(), broken);
    let mut empty = bare(1, "");
    empty.stored = "dbg-".into();
    empty.token = Some(String::new());
    accounts.insert("empty".into(), empty);
    assert!(matches!(
        require_account_token(&accounts, "broken"),
        Err(StoreError::Token(TokenError::InvalidEncryptedToken))
    ));
    assert_eq!(require_account_token(&accounts, "empty").unwrap(), "dbg-");
    let mut blank = bare(1, "");
    blank.stored = encrypt_token_with_iv("", r"C:\Nani", [0u8; 16]);
    accounts.insert("blank".into(), blank);
    assert!(matches!(
        require_account_token(&accounts, "blank"),
        Err(StoreError::Token(TokenError::InvalidEncryptedToken))
    ));
}

#[test]
fn stored_debug_token_is_used() {
    let mut accounts = Accounts::new();
    let mut odd = bare(1, "");
    odd.token = None;
    odd.stored = "dbg-".into();
    accounts.insert("odd".into(), odd);
    assert_eq!(require_account_token(&accounts, "odd").unwrap(), "dbg-");
}

#[test]
fn clear_token_is_preferred() {
    let a = bare(1, "clear");
    assert_eq!(account_token(&a).unwrap(), "clear");
    let mut b = bare(1, "");
    b.stored = "dbg-kept".into();
    assert_eq!(account_token(&b).unwrap(), "dbg-kept");
}

#[test]
fn now_is_after_2020() {
    assert!(nani_switch::store::now_unix() > 1_577_836_800);
}

#[test]
fn unix_seconds_from_elapsed_time() {
    assert_eq!(unix_seconds(Some(1_700_000_000)), 1_700_000_000);
    assert_eq!(unix_seconds(None), 0);
    assert_eq!(unix_seconds(Some(u64::MAX)), -1);
}
