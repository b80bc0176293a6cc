//! Reading the login that Nani holds from the values of its local key-value
//! store: the encrypted access token, and the cached profile.
use base64::engine::general_purpose::{URL_SAFE, URL_SAFE_NO_PAD};
use base64::Engine;
use vstd::prelude::*;

use crate::crypto::{decrypt_token, spec_decrypt_token, TokenError};
use crate::model::{opt_view, Account, CurrentSnapshot};
use crate::store::matches_snapshot;

verus! {

/// The bytes that unpadded URL-safe base64 `text` stands for, if it is valid.
pub uninterp spec fn base64_url_no_pad_decode(text: Seq<char>) -> Option<Seq<u8>>;

/// The bytes that padded URL-safe base64 `text` stands for, if it is valid.
pub uninterp spec fn base64_url_decode(text: Seq<char>) -> Option<Seq<u8>>;

/// The string member `key` of the JSON document `json`, if the bytes are a
/// JSON object with a string under that key.
pub uninterp spec fn json_string_member(json: Seq<u8>, key: Seq<char>) -> Option<Seq<char>>;

/// `Engine::decode` of base64's `URL_SAFE_NO_PAD` engine. Claimed: the bytes
/// that `base64_url_no_pad_decode` names, or nothing when it names none.
#[verifier::external_body]
fn url_no_pad_decode(text: &str) -> (res: Option<Vec<u8>>)
    ensures
        res is Some <==> base64_url_no_pad_decode(text@) is Some,
        res matches Some(bytes) ==> base64_url_no_pad_decode(text@) == Some(bytes@),
{
    URL_SAFE_NO_PAD.decode(text).ok()
}

/// `Engine::decode` of base64's `URL_SAFE` engine. Claimed: the bytes that
/// `base64_url_decode` names, or nothing when it names none.
#[verifier::external_body]
fn url_decode(text: &str) -> (res: Option<Vec<u8>>)
    ensures
        res is Some <==> base64_url_decode(text@) is Some,
        res matches Some(bytes) ==> base64_url_decode(text@) == Some(bytes@),
{
    URL_SAFE.decode(text).ok()
}

/// `serde_json::from_slice` into a `serde_json::Value`, then `Value::get` of
/// `key`, kept when it is a `Value::String`. Claimed: the string that
/// `json_string_member` names for the bytes and key, or nothing when it names none.
#[verifier::external_body]
fn json_string_field(json: &[u8], key: &str) -> (res: Option<String>)
    ensures
        opt_view(res) == json_string_member(json@, key@),
{
    match serde_json::from_slice::<serde_json::Value>(json) {
        Ok(value) => match value.get(key) {
            Some(serde_json::Value::String(s)) => Some(s.clone()),
            _ => None,
        },
        Err(_) => None,
    }
}

/// The first position at or after `i` of the character `c`.
pub open spec fn char_index_from(s: Seq<char>, c: char, i: int) -> Option<int>
    decreases s.len() - i,
{
    if i < 0 || i >= s.len() {
        None
    } else if s[i] == c {
        Some(i)
    } else {
        char_index_from(s, c, i + 1)
    }
}

/// The second `.`-separated part of a token (its payload, in a JWT), if the
/// token has a `.`.
pub open spec fn jwt_payload(token: Seq<char>) -> Option<Seq<char>> {
    match char_index_from(token, '.', 0) {
        None => None,
        Some(p) => {
            let end = match char_index_from(token, '.', p + 1) {
                Some(q) => q,
                None => token.len() as int,
            };
            Some(token.subrange(p + 1, end))
        },
    }
}

/// The payload's bytes: unpadded URL-safe base64, else padded.
pub open spec fn jwt_payload_bytes(payload: Seq<char>) -> Option<Seq<u8>> {
    match base64_url_no_pad_decode(payload) {
        Some(b) => Some(b),
        None => base64_url_decode(payload),
    }
}

/// The user id a JWT carries: the string member `userId`, else `sub`, else `id`.
pub open spec fn spec_jwt_user_id(token: Seq<char>) -> Option<Seq<char>> {
    match jwt_payload(token) {
        None => None,
        Some(payload) => match jwt_payload_bytes(payload) {
            None => None,
            Some(bytes) => match json_string_member(bytes, "userId"@) {
                Some(id) => Some(id),
                None => match json_string_member(bytes, "sub"@) {
                    Some(id) => Some(id),
                    None => json_string_member(bytes, "id"@),
                },
            },
        },
    }
}

proof fn lemma_char_index_from(s: Seq<char>, c: char, i: int)
    requires
        0 <= i,
    ensures
        match char_index_from(s, c, i) {
            Some(j) => i <= j < s.len() && s[j] == c && forall|k: int| i <= k < j ==> #[trigger] s[k] != c,
            None => forall|k: int| i <= k < s.len() ==> #[trigger] s[k] != c,
        },
    decreases s.len() - i,
{
    if i < s.len() && s[i] != c {
        lemma_char_index_from(s, c, i + 1);
    }
}

/// The position of the first `c` at or after `from`, or the end.
fn find_char(s: &str, c: char, from: usize) -> (r: usize)
    requires
        from <= s@.len(),
    ensures
        r == match char_index_from(s@, c, from as int) {
            Some(j) => j,
            None => s@.len() as int,
        },
{
    let n = s.unicode_len();
    let mut i = from;
    while i < n
        invariant
            n == s@.len(),
            from <= i <= n,
            char_index_from(s@, c, from as int) == char_index_from(s@, c, i as int),
        decreases n - i,
    {
        if s.get_char(i) == c {
            return i;
        }
        i += 1;
    }
    i
}

/// The user id that a JWT access token carries in its payload.
pub fn jwt_user_id(token: &str) -> (res: Option<String>)
    ensures
        opt_view(res) == spec_jwt_user_id(token@),
{
    let n = token.unicode_len();
    let p = find_char(token, '.', 0);
    proof {
        lemma_char_index_from(token@, '.', 0);
    }
    if p == n {
        return None;
    }
    let end = find_char(token, '.', p + 1);
    proof {
        lemma_char_index_from(token@, '.', p + 1);
    }
    let payload = token.substring_char(p + 1, end);
    let bytes = match url_no_pad_decode(payload) {
        Some(bytes) => bytes,
        None => match url_decode(payload) {
            Some(bytes) => bytes,
            None => return None,
        },
    };
    if let Some(id) = json_string_field(bytes.as_slice(), "userId") {
        return Some(id);
    }
    if let Some(id) = json_string_field(bytes.as_slice(), "sub") {
        return Some(id);
    }
    json_string_field(bytes.as_slice(), "id")
}

/// A string member of the cached profile, if there is a profile.
pub open spec fn profile_field(profile: Option<Seq<char>>, key: Seq<char>) -> Option<Seq<char>> {
    match profile {
        None => None,
        Some(p) => json_string_member(vstd::utf8::encode_utf8(p), key),
    }
}

fn read_profile_field(profile: &Option<String>, key: &str) -> (res: Option<String>)
    ensures
        opt_view(res) == profile_field(opt_view(*profile), key@),
{
    match profile {
        None => None,
        Some(p) => json_string_field(p.as_str().as_bytes(), key),
    }
}

/// The login that Nani holds, from the stored (encrypted) access token and the
/// cached profile of its key-value store: none when no token is stored. The
/// token is decrypted for the folder `app_data_path`; the user id is the
/// profile's `globalUserId`, else the one in the token; email and display name
/// come from the profile; the account is stamped with `saved_at`, the time
/// of reading in seconds since the Unix epoch.
pub fn snapshot_from_store_values(
    stored: Option<String>,
    profile: Option<String>,
    app_data_path: String,
    saved_at: i64,
) -> (res: Result<Option<CurrentSnapshot>, TokenError>)
    ensures
        match stored {
            None => res matches Ok(None),
            Some(st) => match spec_decrypt_token(st@, app_data_path@) {
                Err(e) => res == Err::<Option<CurrentSnapshot>, TokenError>(e),
                Ok(t) => res matches Ok(Some(snap)) && {
                    let user_id = match profile_field(opt_view(profile), "globalUserId"@) {
                        Some(id) => Some(id),
                        None => spec_jwt_user_id(t),
                    };
                    &&& snap.token@ == t
                    &&& t.len() > 0
                    &&& snap.account.stored@ == st@
                    &&& snap.account.token == Some(snap.token)
                    &&& opt_view(snap.account.user_id) == user_id
                    &&& opt_view(snap.account.email) == profile_field(opt_view(profile), "email"@)
                    &&& opt_view(snap.account.display_name) == profile_field(opt_view(profile), "displayName"@)
                    &&& snap.account.app_data_path@ == app_data_path@
                    &&& snap.account.saved_at == saved_at
                    &&& matches_snapshot(snap@.account, snap@)
                },
            },
        },
{
    let stored = match stored {
        Some(stored) => stored,
        None => return Ok(None),
    };
    let token = match decrypt_token(stored.as_str(), app_data_path.as_str()) {
        Ok(token) => token,
        Err(e) => return Err(e),
    };
    let user_id = match read_profile_field(&profile, "globalUserId") {
        Some(id) => Some(id),
        None => jwt_user_id(token.as_str()),
    };
    let email = read_profile_field(&profile, "email");
    let display_name = read_profile_field(&profile, "displayName");
    let account = Account {
        stored,
        token: Some(token.clone()),
        user_id,
        email,
        display_name,
        saved_at,
        app_data_path,
    };
    Ok(Some(CurrentSnapshot { account, token }))
}

} // verus!
