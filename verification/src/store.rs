//! What the switcher does with its saved accounts: recognising the login that
//! Nani holds, saving it under a free name, removing an account, and finding
//! the access token to switch to.
use std::time::{Duration, SystemTime, SystemTimeError};
use vstd::prelude::*;

use crate::account_map::{
    account_entries, has_key, key_index, keys_unique, lemma_key_index, map_contains_key, map_get, map_get_index, map_insert, map_len,
    map_shift_remove, spec_insert, spec_remove, Accounts, Entry,
};
use crate::crypto::{decrypt_token, spec_decrypt_token, token_result_view, TokenError};
use crate::model::{opt_str_eq, Account, AccountView, CurrentSnapshot, SnapshotView};
use crate::text::{decimal, digits, lemma_digits_injective, signed_decimal, signed_digits};

verus! {

#[verifier::external_type_specification]
#[verifier::external_body]
pub struct ExSystemTime(SystemTime);

#[verifier::external_type_specification]
#[verifier::external_body]
pub struct ExSystemTimeError(SystemTimeError);

/// Why no access token can be had for a saved account.
#[derive(Debug)]
pub enum StoreError {
    /// No saved account has this name.
    AccountNotFound(String),
    /// The account's token, stored or decrypted, is empty.
    EmptyToken(String),
    /// The stored token could not be decrypted.
    Token(TokenError),
}

/// The view of a [`StoreError`].
pub enum StoreErrorView {
    AccountNotFound(Seq<char>),
    EmptyToken(Seq<char>),
    Token(TokenError),
}

pub open spec fn store_error_view(e: StoreError) -> StoreErrorView {
    match e {
        StoreError::AccountNotFound(n) => StoreErrorView::AccountNotFound(n@),
        StoreError::EmptyToken(n) => StoreErrorView::EmptyToken(n@),
        StoreError::Token(t) => StoreErrorView::Token(t),
    }
}

pub open spec fn store_result_view(r: Result<String, StoreError>) -> Result<Seq<char>, StoreErrorView> {
    match r {
        Ok(s) => Ok(s@),
        Err(e) => Err(store_error_view(e)),
    }
}

/// The access token of an account: the one kept in clear when it is not
/// empty, else the stored one decrypted.
pub open spec fn spec_account_token(a: AccountView) -> Result<Seq<char>, TokenError> {
    if a.token is Some && a.token->0.len() > 0 {
        Ok(a.token->0)
    } else {
        spec_decrypt_token(a.stored, a.app_data_path)
    }
}

/// Whether a saved account is the login of the snapshot: same user id, same
/// email, or the same access token.
pub open spec fn matches_snapshot(a: AccountView, s: SnapshotView) -> bool {
    ||| (s.account.user_id is Some && s.account.user_id == a.user_id)
    ||| (s.account.email is Some && s.account.email == a.email)
    ||| spec_account_token(a) == Ok::<Seq<char>, TokenError>(s.token)
}

/// The first position at or after `i` of an account that is the snapshot's login.
pub open spec fn current_index_from(es: Seq<Entry>, s: SnapshotView, i: int) -> Option<int>
    decreases es.len() - i,
{
    if i < 0 || i >= es.len() {
        None
    } else if matches_snapshot(es[i].1, s) {
        Some(i)
    } else {
        current_index_from(es, s, i + 1)
    }
}

/// The name of the first saved account that is the snapshot's login.
pub open spec fn spec_current_account_name(es: Seq<Entry>, snapshot: Option<SnapshotView>) -> Option<Seq<char>> {
    match snapshot {
        None => None,
        Some(s) => match current_index_from(es, s, 0) {
            Some(i) => Some(es[i].0),
            None => None,
        },
    }
}

/// The name a new account is first offered: its email, else its display name,
/// else its user id, else `account-` and the time it was saved.
pub open spec fn base_name(a: AccountView) -> Seq<char> {
    if a.email is Some {
        a.email->0
    } else if a.display_name is Some {
        a.display_name->0
    } else if a.user_id is Some {
        a.user_id->0
    } else {
        seq!['a', 'c', 'c', 'o', 'u', 'n', 't', '-'] + signed_digits(a.saved_at as int)
    }
}

/// `base` followed by `-` and the numeral of `k`.
pub open spec fn suffixed(base: Seq<char>, k: nat) -> Seq<char> {
    base + seq!['-'] + digits(k)
}

/// Whether `k` is the first suffix from two on that gives a free name.
pub open spec fn is_first_free_suffix(es: Seq<Entry>, base: Seq<char>, k: nat) -> bool {
    &&& k >= 2
    &&& !has_key(es, suffixed(base, k))
    &&& forall|j: nat| 2 <= j < k ==> has_key(es, #[trigger] suffixed(base, j))
}

/// The name under which a new account is saved: its base name when that is
/// free, else the base name with the first free suffix from two on.
pub open spec fn spec_unique_name(es: Seq<Entry>, a: AccountView) -> Seq<char> {
    let base = base_name(a);
    if !has_key(es, base) {
        base
    } else {
        suffixed(base, choose|k: nat| is_first_free_suffix(es, base, k))
    }
}

/// The name under which the snapshot's account is saved: the account already
/// saved for that login, else a new free name.
pub open spec fn spec_saved_name(es: Seq<Entry>, s: SnapshotView) -> Seq<char> {
    match spec_current_account_name(es, Some(s)) {
        Some(name) => name,
        None => spec_unique_name(es, s.account),
    }
}

/// The token to switch to the account `a`, saved under `name`: its access
/// token, unless that cannot be had or is empty.
pub open spec fn spec_switch_token(a: AccountView, name: Seq<char>) -> Result<Seq<char>, StoreErrorView> {
    match spec_account_token(a) {
        Err(e) => Err(StoreErrorView::Token(e)),
        Ok(t) => if t.len() == 0 {
            Err(StoreErrorView::EmptyToken(name))
        } else {
            Ok(t)
        },
    }
}

/// What looking up the token of the account named `name` gives.
pub open spec fn spec_require_account_token(es: Seq<Entry>, name: Seq<char>) -> Result<Seq<char>, StoreErrorView> {
    match key_index(es, name) {
        None => Err(StoreErrorView::AccountNotFound(name)),
        Some(i) => spec_switch_token(es[i].1, name),
    }
}

pub open spec fn snapshot_view(s: Option<&CurrentSnapshot>) -> Option<SnapshotView> {
    match s {
        Some(s) => Some(s@),
        None => None,
    }
}

/// The access token of a saved account.
pub fn account_token(account: &Account) -> (res: Result<String, TokenError>)
    ensures
        token_result_view(res) == spec_account_token(account@),
        res matches Ok(token) ==> token@.len() > 0,
{
    if let Some(token) = &account.token {
        if token.unicode_len() > 0 {
            return Ok(token.clone());
        }
    }
    decrypt_token(account.stored.as_str(), account.app_data_path.as_str())
}

proof fn lemma_current_index_from(es: Seq<Entry>, s: SnapshotView, i: int)
    requires
        0 <= i,
    ensures
        match current_index_from(es, s, i) {
            Some(j) => i <= j < es.len() && matches_snapshot(es[j].1, s) && forall|k: int|
                i <= k < j ==> !matches_snapshot(#[trigger] es[k].1, s),
            None => forall|k: int| i <= k < es.len() ==> !matches_snapshot(#[trigger] es[k].1, s),
        },
    decreases es.len() - i,
{
    if i < es.len() && !matches_snapshot(es[i].1, s) {
        lemma_current_index_from(es, s, i + 1);
    }
}

/// Whether a saved account and a login share the login's (present) user id,
/// its (present) email, or its access token.
pub open spec fn same_login(a: AccountView, s: SnapshotView) -> bool {
    ||| (s.account.user_id is Some && a.user_id == s.account.user_id)
    ||| (s.account.email is Some && a.email == s.account.email)
    ||| spec_account_token(a) == Ok::<Seq<char>, TokenError>(s.token)
}

/// Law: the saved account recognised as the login Nani holds is the first,
/// in order, that has the login's user id, its email, or its access token;
/// no account is recognised when none has any of them, whatever the display
/// names; and without a login nothing is recognised.
pub proof fn law_current_account_is_same_login(es: Seq<Entry>, s: SnapshotView)
    ensures
        spec_current_account_name(es, None) is None,
        match spec_current_account_name(es, Some(s)) {
            Some(name) => exists|i: int|
                0 <= i < es.len() && #[trigger] es[i].0 == name && same_login(es[i].1, s) && forall|j: int|
                    0 <= j < i ==> !same_login(#[trigger] es[j].1, s),
            None => forall|i: int| 0 <= i < es.len() ==> !same_login(#[trigger] es[i].1, s),
        },
{
    lemma_current_index_from(es, s, 0);
    assert forall|a: AccountView| #[trigger] matches_snapshot(a, s) == same_login(a, s) by {}
    match current_index_from(es, s, 0) {
        Some(i) => {
            assert(es[i].0 == es[i].0 && same_login(es[i].1, s));
            assert forall|j: int| 0 <= j < i implies !same_login(#[trigger] es[j].1, s) by {
                assert(!matches_snapshot(es[j].1, s));
            }
        },
        None => {
            assert forall|i: int| 0 <= i < es.len() implies !same_login(#[trigger] es[i].1, s) by {
                assert(!matches_snapshot(es[i].1, s));
            }
        },
    }
}

/// The name of the saved account that is the login of the snapshot, the
/// first in order.
pub fn find_current_account_name(accounts: &Accounts, snapshot: Option<&CurrentSnapshot>) -> (res: Option<String>)
    ensures
        crate::model::opt_view(res) == spec_current_account_name(account_entries(*accounts), snapshot_view(snapshot)),
{
    let current = match snapshot {
        Some(s) => s,
        None => return None,
    };
    let ghost es = account_entries(*accounts);
    let ghost s = current@;
    let len = map_len(accounts);
    let mut i: usize = 0;
    while i < len
        invariant
            es == account_entries(*accounts),
            snapshot == Some(current),
            s == current@,
            len == es.len(),
            i <= len,
            current_index_from(es, s, 0) == current_index_from(es, s, i as int),
        decreases len - i,
    {
        let (name, account) = match map_get_index(accounts, i) {
            Some(entry) => entry,
            None => return None,
        };
        if current.account.user_id.is_some() && opt_str_eq(&current.account.user_id, &account.user_id) {
            return Some(name.clone());
        }
        if current.account.email.is_some() && opt_str_eq(&current.account.email, &account.email) {
            return Some(name.clone());
        }
        match account_token(account) {
            Ok(token) => {
                if token.eq(&current.token) {
                    return Some(name.clone());
                }
            },
            Err(_) => {},
        }
        i += 1;
    }
    None
}

/// The names `base-2` .. `base-(k-1)` are all different.
proof fn lemma_suffixed_injective(base: Seq<char>, a: nat, b: nat)
    requires
        suffixed(base, a) == suffixed(base, b),
    ensures
        a == b,
{
    let n = base.len() + 1;
    assert(suffixed(base, a).skip(n as int) =~= digits(a));
    assert(suffixed(base, b).skip(n as int) =~= digits(b));
    lemma_digits_injective(a, b);
}

/// The names tried so far.
spec fn tried_names(base: Seq<char>, count: nat) -> Seq<Seq<char>> {
    Seq::new(count, |j: int| suffixed(base, (j + 2) as nat))
}

/// A map with `len` entries holds at most `len` of the tried names.
proof fn lemma_tried_bound(es: Seq<Entry>, base: Seq<char>, count: nat)
    requires
        forall|j: nat| 2 <= j < count + 2 ==> has_key(es, #[trigger] suffixed(base, j)),
    ensures
        count <= es.len(),
{
    let tried = tried_names(base, count);
    let names = crate::account_map::entry_names(es);
    assert forall|x: int, y: int| 0 <= x < y < tried.len() implies tried[x] != tried[y] by {
        if tried[x] == tried[y] {
            lemma_suffixed_injective(base, (x + 2) as nat, (y + 2) as nat);
        }
    }
    assert(tried.no_duplicates());
    tried.unique_seq_to_set();
    names.lemma_cardinality_of_set();
    assert forall|t: Seq<char>| tried.to_set().contains(t) implies names.to_set().contains(t) by {
        let x = choose|x: int| 0 <= x < tried.len() && tried[x] == t;
        assert(tried[x] == suffixed(base, (x + 2) as nat));
        assert(has_key(es, suffixed(base, (x + 2) as nat)));
        lemma_key_index(es, t);
        let k = key_index(es, t)->0;
        assert(names[k] == t);
    }
    vstd::set_lib::lemma_len_subset(tried.to_set(), names.to_set());
}

/// The name under which a snapshot's account is saved when it is not saved yet.
fn unique_name(accounts: &Accounts, snapshot: &CurrentSnapshot) -> (name: String)
    ensures
        name@ == spec_unique_name(account_entries(*accounts), snapshot@.account),
        !has_key(account_entries(*accounts), name@),
{
    let ghost es = account_entries(*accounts);
    let base = match &snapshot.account.email {
        Some(email) => email.clone(),
        None => match &snapshot.account.display_name {
            Some(display_name) => display_name.clone(),
            None => match &snapshot.account.user_id {
                Some(user_id) => user_id.clone(),
                None => {
                    let mut generated = "account-".to_owned();
                    proof {
                        reveal_strlit("account-");
                    }
                    let saved_at = signed_decimal(snapshot.account.saved_at);
                    generated.append(saved_at.as_str());
                    generated
                },
            },
        },
    };
    assert(base@ == base_name(snapshot@.account));
    if !map_contains_key(accounts, base.as_str()) {
        return base;
    }
    let len = map_len(accounts);
    let mut suffix: u128 = 2;
    loop
        invariant
            es == account_entries(*accounts),
            len == es.len(),
            has_key(es, base@),
            base@ == base_name(snapshot@.account),
            2 <= suffix <= len + 2,
            forall|j: nat| 2 <= j < suffix ==> has_key(es, #[trigger] suffixed(base@, j)),
        decreases len + 2 - suffix,
    {
        let mut candidate = base.clone();
        candidate.append("-");
        let number = decimal(suffix);
        candidate.append(number.as_str());
        proof {
            reveal_strlit("-");
            assert(candidate@ == suffixed(base@, suffix as nat));
        }
        if !map_contains_key(accounts, candidate.as_str()) {
            proof {
                let k = suffix as nat;
                assert(is_first_free_suffix(es, base@, k));
                let c = choose|c: nat| is_first_free_suffix(es, base@, c);
                if c < k {
                    assert(has_key(es, suffixed(base@, c)));
                } else if c > k {
                    assert(has_key(es, suffixed(base@, k)));
                }
            }
            return candidate;
        }
        proof {
            lemma_tried_bound(es, base@, (suffix - 1) as nat);
        }
        suffix += 1;
    }
}

/// Saves the snapshot's account: over the account already saved for that
/// login, else under a new free name. Returns the name and whether an account
/// was updated.
pub fn save_current_account(accounts: &mut Accounts, snapshot: CurrentSnapshot) -> (res: (String, bool))
    ensures
        res.1 == spec_current_account_name(account_entries(*old(accounts)), Some(snapshot@)) is Some,
        res.0@ == spec_saved_name(account_entries(*old(accounts)), snapshot@),
        account_entries(*final(accounts)) == spec_insert(
            account_entries(*old(accounts)),
            res.0@,
            snapshot@.account,
        ),
        keys_unique(account_entries(*final(accounts))),
        !res.1 ==> !has_key(account_entries(*old(accounts)), res.0@),
        !res.1 && !has_key(account_entries(*old(accounts)), base_name(snapshot@.account)) ==> res.0@ == base_name(
            snapshot@.account,
        ),
        !res.1 && has_key(account_entries(*old(accounts)), base_name(snapshot@.account)) ==> exists|k: nat|
            #[trigger] is_first_free_suffix(account_entries(*old(accounts)), base_name(snapshot@.account), k)
                && res.0@ == suffixed(base_name(snapshot@.account), k),
{
    proof {
        law_unique_name_is_first_free(account_entries(*old(accounts)), snapshot@.account);
    }
    let existing = find_current_account_name(accounts, Some(&snapshot));
    let updated = existing.is_some();
    let name = match existing {
        Some(name) => name,
        None => unique_name(accounts, &snapshot),
    };
    map_insert(accounts, name.clone(), snapshot.account);
    (name, updated)
}

/// Removes the account named `name`; whether there was one.
pub fn delete_account(accounts: &mut Accounts, name: &str) -> (removed: bool)
    ensures
        removed == has_key(account_entries(*old(accounts)), name@),
        account_entries(*final(accounts)) == spec_remove(account_entries(*old(accounts)), name@),
        !has_key(account_entries(*final(accounts)), name@),
        keys_unique(account_entries(*final(accounts))),
        spec_require_account_token(account_entries(*final(accounts)), name@) == Err::<Seq<char>, StoreErrorView>(
            StoreErrorView::AccountNotFound(name@),
        ),
        forall|other: Seq<char>|
            other != name@ ==> #[trigger] spec_require_account_token(account_entries(*final(accounts)), other)
                == spec_require_account_token(account_entries(*old(accounts)), other),
{
    let removed = map_shift_remove(accounts, name).is_some();
    proof {
        assert forall|other: Seq<char>|
            other != name@ implies #[trigger] spec_require_account_token(account_entries(*accounts), other)
                == spec_require_account_token(account_entries(*old(accounts)), other) by {
            law_remove_forgets_only_that_name(account_entries(*old(accounts)), name@, other);
        }
        law_remove_forgets_only_that_name(account_entries(*old(accounts)), name@, name@);
    }
    removed
}

/// The access token to switch to the account named `name`.
pub fn require_account_token(accounts: &Accounts, name: &str) -> (res: Result<String, StoreError>)
    ensures
        store_result_view(res) == spec_require_account_token(account_entries(*accounts), name@),
        res matches Ok(token) ==> token@.len() > 0,
        res matches Err(e) ==> !(e is EmptyToken),
{
    let account = match map_get(accounts, name) {
        Some(account) => account,
        None => return Err(StoreError::AccountNotFound(name.to_owned())),
    };
    let token = match account_token(account) {
        Ok(token) => token,
        Err(e) => return Err(StoreError::Token(e)),
    };
    if token.unicode_len() == 0 {
        return Err(StoreError::EmptyToken(name.to_owned()));
    }
    Ok(token)
}

/// From two on there is a first suffix that gives a free name.
proof fn lemma_first_free_suffix_exists(es: Seq<Entry>, base: Seq<char>, k: nat)
    requires
        k >= 2,
        forall|j: nat| 2 <= j < k ==> has_key(es, #[trigger] suffixed(base, j)),
    ensures
        exists|c: nat| is_first_free_suffix(es, base, c),
    decreases es.len() + 2 - k,
{
    if !has_key(es, suffixed(base, k)) {
        assert(is_first_free_suffix(es, base, k));
    } else {
        lemma_tried_bound(es, base, (k - 1) as nat);
        lemma_first_free_suffix_exists(es, base, k + 1);
    }
}

/// Law: the name a new account is given is not the name of a saved account;
/// it is the account's base name when that is free, and else the base name
/// with the least suffix from two on that no saved account has.
pub proof fn law_unique_name_is_first_free(es: Seq<Entry>, a: AccountView)
    ensures
        !has_key(es, spec_unique_name(es, a)),
        !has_key(es, base_name(a)) ==> spec_unique_name(es, a) == base_name(a),
        has_key(es, base_name(a)) ==> exists|k: nat|
            #[trigger] is_first_free_suffix(es, base_name(a), k) && spec_unique_name(es, a) == suffixed(
                base_name(a),
                k,
            ),
{
    let base = base_name(a);
    if has_key(es, base) {
        lemma_first_free_suffix_exists(es, base, 2);
        let k = choose|k: nat| is_first_free_suffix(es, base, k);
        assert(is_first_free_suffix(es, base, k) && spec_unique_name(es, a) == suffixed(base, k));
    }
}

/// Law: after the current login is saved, the saved accounts recognise that
/// login as current, under the name that saving returned, provided the
/// snapshot's own account is recognised as its login (as every snapshot read
/// from Nani's database is).
pub proof fn law_saved_login_is_current(es: Seq<Entry>, s: SnapshotView)
    requires
        matches_snapshot(s.account, s),
    ensures
        spec_current_account_name(spec_insert(es, spec_saved_name(es, s), s.account), Some(s))
            == Some(spec_saved_name(es, s)),
{
    let name = spec_saved_name(es, s);
    let after = spec_insert(es, name, s.account);
    lemma_current_index_from(es, s, 0);
    lemma_key_index(es, name);
    let j: int;
    match current_index_from(es, s, 0) {
        Some(i) => {
            assert(es[i].0 == name);
            assert(key_index(es, name) is Some);
            j = key_index(es, name)->0;
            assert(j <= i);
            assert(after == es.update(j, (es[j].0, s.account)));
            assert forall|k: int| 0 <= k < j implies !matches_snapshot(#[trigger] after[k].1, s) by {
                assert(after[k] == es[k]);
            }
        },
        None => {
            law_unique_name_is_first_free(es, s.account);
            j = es.len() as int;
            assert(after == es.push((name, s.account)));
            assert forall|k: int| 0 <= k < j implies !matches_snapshot(#[trigger] after[k].1, s) by {
                assert(after[k] == es[k]);
            }
        },
    }
    assert(after[j].0 == name);
    assert(after[j].1 == s.account);
    lemma_current_index_from(after, s, 0);
    match current_index_from(after, s, 0) {
        Some(jj) => {
            if jj < j {
                assert(!matches_snapshot(after[jj].1, s));
            } else if jj > j {
                assert(matches_snapshot(after[j].1, s));
            }
        },
        None => {
            assert(matches_snapshot(after[j].1, s));
        },
    }
}

/// Law: once an account is saved under a name, looking up that name gives
/// the token of that account.
pub proof fn law_lookup_after_save(es: Seq<Entry>, name: Seq<char>, a: AccountView)
    ensures
        spec_require_account_token(spec_insert(es, name, a), name) == spec_switch_token(a, name),
{
    lemma_insert_position(es, name, a);
}

/// Where an inserted account lands: at the place of the entry of that name,
/// or last; it is then the entry found for that name.
proof fn lemma_insert_position(es: Seq<Entry>, name: Seq<char>, a: AccountView)
    ensures
        ({
            let after = spec_insert(es, name, a);
            let j = if key_index(es, name) is Some { key_index(es, name)->0 } else { es.len() as int };
            &&& key_index(after, name) == Some(j)
            &&& after[j] == (name, a)
            &&& after.len() == if key_index(es, name) is Some { es.len() } else { es.len() + 1 }
            &&& forall|k: int| 0 <= k < es.len() && k != j ==> #[trigger] after[k] == es[k]
            &&& forall|k: int| 0 <= k < es.len() ==> #[trigger] after[k].0 == es[k].0
        }),
{
    let after = spec_insert(es, name, a);
    lemma_key_index(es, name);
    let j = if key_index(es, name) is Some { key_index(es, name)->0 } else { es.len() as int };
    if key_index(es, name) is Some {
        assert(after == es.update(j, (es[j].0, a)));
    } else {
        assert(after == es.push((name, a)));
    }
    assert(after[j].0 == name);
    assert forall|k: int| 0 <= k < j implies #[trigger] after[k].0 != name by {
        assert(after[k] == es[k]);
    }
    lemma_key_index(after, name);
    match key_index(after, name) {
        Some(jj) => {
            if jj > j {
                assert(after[j].0 == name);
            }
        },
        None => {
            assert(after[j].0 == name);
        },
    }
}

/// Law: saving keeps every saved account's name in its place, and adds at
/// most one entry, at the end; it keeps the names distinct.
pub proof fn law_save_keeps_order(es: Seq<Entry>, name: Seq<char>, a: AccountView)
    ensures
        ({
            let after = spec_insert(es, name, a);
            &&& after.len() == es.len() || after.len() == es.len() + 1
            &&& forall|i: int| 0 <= i < es.len() ==> #[trigger] after[i].0 == es[i].0
            &&& has_key(after, name)
            &&& keys_unique(es) ==> keys_unique(after)
        }),
{
    let after = spec_insert(es, name, a);
    lemma_insert_position(es, name, a);
    lemma_key_index(es, name);
    if keys_unique(es) && key_index(es, name) is None {
        assert forall|i: int, j: int| 0 <= i < j < after.len() implies after[i].0 != after[j].0 by {
            if j == es.len() {
                assert(after[i] == es[i]);
            } else {
                assert(after[i] == es[i] && after[j] == es[j]);
            }
        }
    }
}

/// Law: after the account named `name` is removed, looking it up finds no
/// account, and looking up any other name gives what it gave before.
pub proof fn law_remove_forgets_only_that_name(es: Seq<Entry>, name: Seq<char>, other: Seq<char>)
    requires
        keys_unique(es),
    ensures
        spec_require_account_token(spec_remove(es, name), name) == Err::<Seq<char>, StoreErrorView>(
            StoreErrorView::AccountNotFound(name),
        ),
        other != name ==> spec_require_account_token(spec_remove(es, name), other)
            == spec_require_account_token(es, other),
{
    let after = spec_remove(es, name);
    lemma_key_index(es, name);
    lemma_key_index(after, name);
    lemma_key_index(es, other);
    lemma_key_index(after, other);
    match key_index(es, name) {
        None => {},
        Some(i) => {
            assert(after == es.remove(i));
            if key_index(after, name) is Some {
                let j = key_index(after, name)->0;
                if j < i {
                    assert(after[j] == es[j]);
                } else {
                    assert(after[j] == es[j + 1]);
                }
            }
            if other != name {
                match key_index(es, other) {
                    None => {
                        if key_index(after, other) is Some {
                            let j = key_index(after, other)->0;
                            if j < i {
                                assert(after[j] == es[j]);
                            } else {
                                assert(after[j] == es[j + 1]);
                            }
                        }
                    },
                    Some(p) => {
                        let q = if p < i { p } else { p - 1 };
                        assert(after[q] == es[p]);
                        let j = key_index(after, other)->0;
                        if j < q {
                            if j < i {
                                assert(after[j] == es[j]);
                            } else {
                                assert(after[j] == es[j + 1]);
                            }
                        }
                        if j > q {
                            assert(after[q].0 == other);
                        }
                    },
                }
            }
        },
    }
}

/// `SystemTime::now`. Nothing is claimed of the value: it is the clock's.
#[verifier::external_body]
fn system_time_now() -> SystemTime {
    SystemTime::now()
}

/// `SystemTime::duration_since(UNIX_EPOCH)`. Nothing is claimed of the value;
/// it fails when the clock stands before 1970.
#[verifier::external_body]
fn duration_since_unix_epoch(t: &SystemTime) -> Result<Duration, SystemTimeError> {
    t.duration_since(SystemTime::UNIX_EPOCH)
}

/// `Duration::as_secs`. Nothing is claimed of the value.
#[verifier::external_body]
fn duration_as_secs(d: &Duration) -> u64 {
    d.as_secs()
}

/// The Unix time for the seconds elapsed since 1970, as the store records it:
/// the count taken as a signed 64-bit number (wrapping past its maximum), or
/// 0 when the clock stood before 1970.
pub fn unix_seconds(elapsed: Option<u64>) -> (seconds: i64)
    ensures
        seconds == match elapsed {
            Some(s) => s as i64,
            None => 0i64,
        },
{
    match elapsed {
        Some(s) => {
            #[verifier::truncate]
            (s as i64)
        },
        None => 0,
    }
}

/// Whole seconds since 1970 by the system clock; 0 when the clock stands before.
pub fn now_unix() -> i64 {
    let now = system_time_now();
    let elapsed = match duration_since_unix_epoch(&now) {
        Ok(d) => Some(duration_as_secs(&d)),
        Err(_) => None,
    };
    unix_seconds(elapsed)
}

} // verus!
