//! The encryption Nani applies to the access token it keeps in its database:
//! AES-256 in counter mode under a key derived from the user-data folder, with
//! a random 16-byte IV written in front of the ciphertext, all in base64.
use aes::Aes256;
use base64::engine::general_purpose::STANDARD;
use base64::Engine;
use ctr::cipher::{KeyIvInit, StreamCipher};
use sha2::{Digest, Sha256};
use vstd::prelude::*;
use vstd::utf8::*;

verus! {

broadcast use group_utf8_lib;

#[verifier::external_type_specification]
#[verifier::external_body]
pub struct ExDecodeError(base64::DecodeError);

#[verifier::external_type_specification]
#[verifier::external_body]
pub struct ExFromUtf8Error(std::string::FromUtf8Error);

/// Why a stored access token could not be recovered.
#[derive(Clone, Copy, Debug, PartialEq, Eq, Structural)]
pub enum TokenError {
    /// Not base64, or too short to hold an IV and at least one byte.
    InvalidEncryptedToken,
    /// The decrypted bytes are not UTF-8.
    NotUtf8,
}

/// The SHA-256 digest of `data`.
pub uninterp spec fn sha256(data: Seq<u8>) -> Seq<u8>;

/// `data` with the AES-256-CTR keystream for `key` and `iv` applied.
pub uninterp spec fn aes256_ctr(key: Seq<u8>, iv: Seq<u8>, data: Seq<u8>) -> Seq<u8>;

/// The standard (padded) base64 text of `data`.
pub uninterp spec fn base64_standard_encode(data: Seq<u8>) -> Seq<char>;

/// The bytes that standard (padded) base64 `text` stands for, if it is valid.
pub uninterp spec fn base64_standard_decode(text: Seq<char>) -> Option<Seq<u8>>;

/// A character of the standard base64 alphabet, or its padding character.
pub open spec fn is_standard_base64_char(c: char) -> bool {
    ||| ('A' <= c && c <= 'Z')
    ||| ('a' <= c && c <= 'z')
    ||| ('0' <= c && c <= '9')
    ||| c == '+'
    ||| c == '/'
    ||| c == '='
}

/// Text made of the standard base64 alphabet and `=` only.
pub open spec fn all_standard_base64(text: Seq<char>) -> bool {
    forall|i: int| 0 <= i < text.len() ==> is_standard_base64_char(#[trigger] text[i])
}

/// `Sha256::digest` of the sha2 crate. Claimed: the digest is the value that
/// `sha256` names for the input bytes.
#[verifier::external_body]
fn sha256_digest(data: &[u8]) -> (digest: [u8; 32])
    ensures
        digest@ == sha256(data@),
{
    Sha256::digest(data).into()
}

/// A fresh `ctr::Ctr128BE<aes::Aes256>` made by `KeyIvInit::new` from `key`
/// and `iv`, then `StreamCipher::apply_keystream` over `data`. Claimed: the
/// bytes become the value that `aes256_ctr` names; their number is kept; and,
/// since the keystream is XORed in, applying it again with the same key and IV
/// gives the input back.
#[verifier::external_body]
fn aes256_ctr_apply(key: &[u8; 32], iv: &[u8; 16], data: &mut Vec<u8>)
    ensures
        final(data)@ == aes256_ctr(key@, iv@, old(data)@),
        final(data)@.len() == old(data)@.len(),
        aes256_ctr(key@, iv@, final(data)@) == old(data)@,
{
    let mut cipher = ctr::Ctr128BE::<Aes256>::new(&(*key).into(), &(*iv).into());
    cipher.apply_keystream(data.as_mut_slice());
}

/// `Engine::encode` of base64's `STANDARD` engine. Claimed: the text is the
/// value that `base64_standard_encode` names; decoding it with the same engine
/// gives the bytes back; it is made of the standard alphabet and `=` only.
#[verifier::external_body]
fn base64_encode(data: &[u8]) -> (text: String)
    ensures
        text@ == base64_standard_encode(data@),
        base64_standard_decode(text@) == Some(data@),
        forall|i: int| 0 <= i < text@.len() ==> is_standard_base64_char(#[trigger] text@[i]),
{
    STANDARD.encode(data)
}

/// `Engine::decode` of base64's `STANDARD` engine. Claimed: it succeeds exactly
/// when `base64_standard_decode` names some bytes for the text, and gives them.
#[verifier::external_body]
fn base64_decode(text: &str) -> (res: Result<Vec<u8>, base64::DecodeError>)
    ensures
        res is Ok <==> base64_standard_decode(text@) is Some,
        res matches Ok(bytes) ==> base64_standard_decode(text@) == Some(bytes@),
{
    STANDARD.decode(text)
}

/// `String::from_utf8`. Claimed, as std documents: it succeeds exactly on valid
/// UTF-8, and then holds the characters those bytes encode.
#[verifier::external_body]
fn string_from_utf8(bytes: Vec<u8>) -> (res: Result<String, std::string::FromUtf8Error>)
    ensures
        res is Ok <==> valid_utf8(bytes@),
        res matches Ok(s) ==> s@ == decode_utf8(bytes@),
{
    String::from_utf8(bytes)
}

/// `rand::random` for sixteen bytes. Nothing is claimed of the value: it is
/// drawn from the thread's random generator (which panics only where the
/// operating system gives it no entropy).
#[verifier::external_body]
fn random_iv() -> [u8; 16] {
    rand::random()
}

/// The key for a user-data folder: SHA-256 of the folder's path followed by `nn`.
pub open spec fn spec_derive_key(user_data_path: Seq<char>) -> Seq<u8> {
    sha256(encode_utf8(user_data_path + seq!['n', 'n']))
}

/// Tokens with this prefix are kept in clear (Nani's debug builds).
pub open spec fn debug_prefix() -> Seq<char> {
    seq!['d', 'b', 'g', '-']
}

/// What encrypting `plaintext` for the folder `user_data_path` with `iv` gives.
pub open spec fn spec_encrypt_token(plaintext: Seq<char>, user_data_path: Seq<char>, iv: Seq<u8>) -> Seq<char> {
    base64_standard_encode(iv + aes256_ctr(spec_derive_key(user_data_path), iv, encode_utf8(plaintext)))
}

/// What decrypting a stored token gives.
pub open spec fn spec_decrypt_token(stored: Seq<char>, user_data_path: Seq<char>) -> Result<Seq<char>, TokenError> {
    if debug_prefix().is_prefix_of(stored) {
        Ok(stored)
    } else {
        match base64_standard_decode(stored) {
            None => Err(TokenError::InvalidEncryptedToken),
            Some(bytes) => if bytes.len() < 17 {
                Err(TokenError::InvalidEncryptedToken)
            } else {
                let plain = aes256_ctr(spec_derive_key(user_data_path), bytes.take(16), bytes.skip(16));
                if valid_utf8(plain) {
                    Ok(decode_utf8(plain))
                } else {
                    Err(TokenError::NotUtf8)
                }
            },
        }
    }
}

/// The characters of a string result.
pub open spec fn token_result_view(r: Result<String, TokenError>) -> Result<Seq<char>, TokenError> {
    match r {
        Ok(s) => Ok(s@),
        Err(e) => Err(e),
    }
}

fn derive_key(user_data_path: &str) -> (key: [u8; 32])
    ensures
        key@ == spec_derive_key(user_data_path@),
{
    let mut material = user_data_path.to_owned();
    material.append("nn");
    proof {
        reveal_strlit("nn");
        assert(material@ == user_data_path@ + seq!['n', 'n']);
    }
    sha256_digest(material.as_str().as_bytes())
}

/// Whether `s` starts with `prefix` (as `str::starts_with`).
pub fn has_prefix(s: &str, prefix: &str) -> (r: bool)
    ensures
        r == prefix@.is_prefix_of(s@),
{
    let n = prefix.unicode_len();
    let m = s.unicode_len();
    if n > m {
        return false;
    }
    let mut i: usize = 0;
    while i < n
        invariant
            n == prefix@.len(),
            m == s@.len(),
            n <= m,
            i <= n,
            forall|j: int| 0 <= j < i ==> prefix@[j] == s@[j],
        decreases n - i,
    {
        if prefix.get_char(i) != s.get_char(i) {
            return false;
        }
        i += 1;
    }
    true
}

proof fn lemma_encode_utf8_nonempty(chars: Seq<char>)
    requires
        chars.len() > 0,
    ensures
        encode_utf8(chars).len() > 0,
{
    assert(encode_scalar(chars[0] as u32).len() > 0);
}

/// Valid UTF-8 of at least one byte encodes at least one character.
proof fn lemma_decode_utf8_nonempty(bytes: Seq<u8>)
    requires
        valid_utf8(bytes),
        bytes.len() > 0,
    ensures
        decode_utf8(bytes).len() > 0,
{
    assert(decode_utf8(bytes) == seq![decode_first_scalar(bytes) as char] + decode_utf8(pop_first_scalar(bytes)));
}

/// How a stored token is laid out: its base64 decodes to the IV followed by
/// as many bytes as the token's UTF-8 encoding has.
pub open spec fn stored_token_layout(stored: Seq<char>, plaintext: Seq<char>, iv: Seq<u8>) -> bool {
    &&& base64_standard_decode(stored) is Some
    &&& base64_standard_decode(stored)->0.len() == 16 + encode_utf8(plaintext).len()
    &&& base64_standard_decode(stored)->0.subrange(0, 16) == iv
}

/// Recovers the access token that `stored` holds for the folder `user_data_path`.
pub fn decrypt_token(stored: &str, user_data_path: &str) -> (res: Result<String, TokenError>)
    ensures
        token_result_view(res) == spec_decrypt_token(stored@, user_data_path@),
        res matches Ok(token) ==> token@.len() > 0,
{
    proof {
        reveal_strlit("dbg-");
    }
    if has_prefix(stored, "dbg-") {
        return Ok(stored.to_owned());
    }
    let mut bytes = match base64_decode(stored) {
        Ok(bytes) => bytes,
        Err(_) => return Err(TokenError::InvalidEncryptedToken),
    };
    if bytes.len() < 17 {
        return Err(TokenError::InvalidEncryptedToken);
    }
    let ghost decoded = bytes@;
    let key = derive_key(user_data_path);
    let mut decrypted = bytes.split_off(16);
    let iv: [u8; 16] = [
        bytes[0], bytes[1], bytes[2], bytes[3], bytes[4], bytes[5], bytes[6], bytes[7],
        bytes[8], bytes[9], bytes[10], bytes[11], bytes[12], bytes[13], bytes[14], bytes[15],
    ];
    assert(iv@ =~= decoded.take(16));
    assert(decrypted@ =~= decoded.skip(16));
    aes256_ctr_apply(&key, &iv, &mut decrypted);
    let ghost plain = decrypted@;
    match string_from_utf8(decrypted) {
        Ok(token) => {
            proof {
                lemma_decode_utf8_nonempty(plain);
            }
            Ok(token)
        },
        Err(_) => Err(TokenError::NotUtf8),
    }
}

/// Encrypts `plaintext` for the folder `user_data_path` with the given IV.
pub fn encrypt_token_with_iv(plaintext: &str, user_data_path: &str, iv: [u8; 16]) -> (stored: String)
    ensures
        stored@ == spec_encrypt_token(plaintext@, user_data_path@, iv@),
        stored_token_layout(stored@, plaintext@, iv@),
        all_standard_base64(stored@),
        plaintext@.len() > 0 ==> spec_decrypt_token(stored@, user_data_path@) == Ok::<Seq<char>, TokenError>(plaintext@),
{
    let key = derive_key(user_data_path);
    let mut encrypted = vstd::slice::slice_to_vec(plaintext.as_bytes());
    let ghost clear = encrypted@;
    assert(clear == encode_utf8(plaintext@));
    aes256_ctr_apply(&key, &iv, &mut encrypted);
    let mut bytes: Vec<u8> = vstd::slice::slice_to_vec(iv.as_slice());
    let ghost cipher_text = encrypted@;
    bytes.append(&mut encrypted);
    let stored = base64_encode(bytes.as_slice());
    proof {
        assert(bytes@ == iv@ + cipher_text);
        assert(bytes@.subrange(0, 16) =~= iv@);
        if plaintext@.len() > 0 {
            lemma_encode_utf8_nonempty(plaintext@);
            assert(bytes@.len() >= 17);
            if debug_prefix().is_prefix_of(stored@) {
                assert(stored@[3] == '-');
                assert(is_standard_base64_char(stored@[3]));
            }
            assert(bytes@.take(16) =~= iv@);
            assert(bytes@.skip(16) =~= cipher_text);
        }
    }
    stored
}

/// Encrypts `plaintext` for the folder `user_data_path` under a fresh random IV.
pub fn encrypt_token(plaintext: &str, user_data_path: &str) -> (res: Result<String, TokenError>)
    ensures
        res is Ok,
        res matches Ok(stored) ==> exists|iv: Seq<u8>|
            iv.len() == 16 && stored@ == spec_encrypt_token(plaintext@, user_data_path@, iv)
                && stored_token_layout(stored@, plaintext@, iv),
        res matches Ok(stored) ==> all_standard_base64(stored@),
        res matches Ok(stored) ==> (plaintext@.len() > 0 ==> spec_decrypt_token(stored@, user_data_path@)
            == Ok::<Seq<char>, TokenError>(plaintext@)),
{
    let iv = random_iv();
    let stored = encrypt_token_with_iv(plaintext, user_data_path, iv);
    assert(iv@.len() == 16);
    Ok(stored)
}

} // verus!
