//! The saved accounts, kept in an `indexmap::IndexMap` so that they stay in
//! the order in which they were first saved.
use indexmap::IndexMap;
use vstd::prelude::*;

use crate::model::{Account, AccountView};

verus! {

#[verifier::external_type_specification]
#[verifier::external_body]
#[verifier::reject_recursive_types(K)]
#[verifier::reject_recursive_types(V)]
#[verifier::reject_recursive_types(S)]
pub struct ExIndexMap<K, V, S>(IndexMap<K, V, S>);

/// Saved accounts by name, in the order in which they were first saved.
pub type Accounts = IndexMap<String, Account>;

/// An entry of an account map: the name and the account.
pub type Entry = (Seq<char>, AccountView);

/// The entries of an account map, in the map's order.
pub uninterp spec fn account_entries(m: IndexMap<String, Account>) -> Seq<Entry>;

/// The first position at or after `i` whose name is `key`.
pub open spec fn key_index_from(es: Seq<Entry>, key: Seq<char>, i: int) -> Option<int>
    decreases es.len() - i,
{
    if i < 0 || i >= es.len() {
        None
    } else if es[i].0 == key {
        Some(i)
    } else {
        key_index_from(es, key, i + 1)
    }
}

/// The position of the entry named `key`, if there is one.
pub open spec fn key_index(es: Seq<Entry>, key: Seq<char>) -> Option<int> {
    key_index_from(es, key, 0)
}

/// Whether some entry is named `key`.
pub open spec fn has_key(es: Seq<Entry>, key: Seq<char>) -> bool {
    key_index(es, key) is Some
}

/// No two entries share a name, as in every `IndexMap`.
pub open spec fn keys_unique(es: Seq<Entry>) -> bool {
    forall|i: int, j: int| 0 <= i < j < es.len() ==> es[i].0 != es[j].0
}

/// The names of the entries, in order.
pub open spec fn entry_names(es: Seq<Entry>) -> Seq<Seq<char>> {
    es.map_values(|e: Entry| e.0)
}

/// The entries after inserting `value` under `key`: an entry with that name
/// keeps its place and takes the new account; otherwise the pair goes last.
pub open spec fn spec_insert(es: Seq<Entry>, key: Seq<char>, value: AccountView) -> Seq<Entry> {
    match key_index(es, key) {
        Some(i) => es.update(i, (es[i].0, value)),
        None => es.push((key, value)),
    }
}

/// The entries after removing the one named `key`; the others keep their order.
pub open spec fn spec_remove(es: Seq<Entry>, key: Seq<char>) -> Seq<Entry> {
    match key_index(es, key) {
        Some(i) => es.remove(i),
        None => es,
    }
}

/// What `key_index_from` finds: the first matching position, or none from `i` on.
pub proof fn lemma_key_index_from(es: Seq<Entry>, key: Seq<char>, i: int)
    requires
        0 <= i,
    ensures
        match key_index_from(es, key, i) {
            Some(j) => i <= j < es.len() && es[j].0 == key && forall|k: int|
                i <= k < j ==> #[trigger] es[k].0 != key,
            None => forall|k: int| i <= k < es.len() ==> #[trigger] es[k].0 != key,
        },
    decreases es.len() - i,
{
    if i < es.len() && es[i].0 != key {
        lemma_key_index_from(es, key, i + 1);
    }
}

/// What `key_index` finds: the first entry named `key`, or none at all.
pub proof fn lemma_key_index(es: Seq<Entry>, key: Seq<char>)
    ensures
        match key_index(es, key) {
            Some(j) => 0 <= j < es.len() && es[j].0 == key && forall|k: int|
                0 <= k < j ==> #[trigger] es[k].0 != key,
            None => forall|k: int| 0 <= k < es.len() ==> #[trigger] es[k].0 != key,
        },
{
    lemma_key_index_from(es, key, 0);
}

/// `IndexMap::len`. Claimed: the number of entries.
#[verifier::external_body]
pub(crate) fn map_len(m: &Accounts) -> (n: usize)
    ensures
        n == account_entries(*m).len(),
{
    m.len()
}

/// `IndexMap::get_index`. Claimed: the name and account at position `i`, or
/// nothing past the end.
#[verifier::external_body]
pub(crate) fn map_get_index(m: &Accounts, i: usize) -> (r: Option<(&String, &Account)>)
    ensures
        r is Some <==> i < account_entries(*m).len(),
        r is Some ==> r.unwrap().0@ == account_entries(*m)[i as int].0 && r.unwrap().1@ == account_entries(*m)[i as int].1,
{
    m.get_index(i)
}

/// `IndexMap::keys`, the names collected in order. Claimed: the names of the
/// entries, in the map's order; no name comes twice, as an `IndexMap` holds
/// each key once.
#[verifier::external_body]
pub(crate) fn map_keys(m: &Accounts) -> (names: Vec<String>)
    ensures
        names@.map_values(|n: String| n@) == entry_names(account_entries(*m)),
        forall|i: int, j: int| 0 <= i < j < names@.len() ==> names@[i]@ != names@[j]@,
{
    m.keys().cloned().collect()
}

/// `IndexMap::contains_key`. Claimed: whether an entry is named `key`.
#[verifier::external_body]
pub(crate) fn map_contains_key(m: &Accounts, key: &str) -> (r: bool)
    ensures
        r == has_key(account_entries(*m), key@),
{
    m.contains_key(key)
}

/// `IndexMap::get`. Claimed: the account of the entry named `key`, if any.
#[verifier::external_body]
pub(crate) fn map_get<'a>(m: &'a Accounts, key: &str) -> (r: Option<&'a Account>)
    ensures
        match key_index(account_entries(*m), key@) {
            Some(i) => r matches Some(v) && v@ == account_entries(*m)[i].1,
            None => r is None,
        },
{
    m.get(key)
}

/// `IndexMap::insert`. Claimed, as its documentation says: an entry with an
/// equal name keeps its place and takes the new account; otherwise the pair is
/// added last; the names stay distinct. The replaced account, which it hands
/// back, is dropped here.
#[verifier::external_body]
pub(crate) fn map_insert(m: &mut Accounts, key: String, value: Account)
    ensures
        account_entries(*final(m)) == spec_insert(account_entries(*old(m)), key@, value@),
        keys_unique(account_entries(*final(m))),
{
    m.insert(key, value);
}

/// `IndexMap::shift_remove`. Claimed, as its documentation says: the entry
/// named `key` is removed and handed back, the others keep their order; with
/// no such entry nothing changes. As an `IndexMap` holds each name once (before
/// and after), no entry of that name is left.
#[verifier::external_body]
pub(crate) fn map_shift_remove(m: &mut Accounts, key: &str) -> (r: Option<Account>)
    ensures
        account_entries(*final(m)) == spec_remove(account_entries(*old(m)), key@),
        keys_unique(account_entries(*old(m))),
        !has_key(account_entries(*final(m)), key@),
        keys_unique(account_entries(*final(m))),
        match key_index(account_entries(*old(m)), key@) {
            Some(i) => r matches Some(v) && v@ == account_entries(*old(m))[i].1,
            None => r is None,
        },
{
    m.shift_remove(key)
}

} // verus!
