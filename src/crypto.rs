//! The primitives this library relies on: hashing, base64, UTF-8, Ed25519,
//! AES-256-GCM and timestamp parsing. Each result that depends on its
//! arguments alone is given a name; the codecs are verified against the names.
use vstd::prelude::*;
use vstd::utf8::{decode_utf8, valid_utf8};

verus! {

/// The SHA-256 digest of `data`.
pub uninterp spec fn sha256_of(data: Seq<u8>) -> Seq<u8>;

/// The standard, padded base64 text of `data`.
pub uninterp spec fn base64_of(data: Seq<u8>) -> Seq<char>;

/// The bytes that standard, padded base64 text `s` stands for, if it is well formed.
pub uninterp spec fn base64_decoded(s: Seq<char>) -> Option<Seq<u8>>;

/// Whether `sig` is a valid Ed25519 signature of `msg` under the public key `key`.
pub uninterp spec fn ed25519_accepts(key: Seq<u8>, msg: Seq<u8>, sig: Seq<u8>) -> bool;

/// The plaintext that AES-256-GCM (no associated data) recovers from `sealed`
/// (ciphertext followed by its 16-byte tag) under `key` and `nonce`, if the tag
/// authenticates.
pub uninterp spec fn aes256gcm_opened(key: Seq<u8>, nonce: Seq<u8>, sealed: Seq<u8>) -> Option<
    Seq<u8>,
>;

/// Seconds since the Unix epoch of an RFC 2822 date-time text, if it parses.
pub uninterp spec fn rfc2822_seconds(s: Seq<char>) -> Option<int>;

/// Seconds since the Unix epoch of an RFC 3339 date-time text, if it parses.
pub uninterp spec fn rfc3339_seconds(s: Seq<char>) -> Option<int>;

/// Relies on `sha2::Sha256::digest`: the 32-byte digest of `data`.
#[verifier::external_body]
pub(crate) fn sha256(data: &[u8]) -> (r: Vec<u8>)
    ensures
        r@ == sha256_of(data@),
        r@.len() == 32,
{
    <sha2::Sha256 as sha2::Digest>::digest(data).to_vec()
}

/// Relies on `base64::engine::general_purpose::STANDARD.encode`.
#[verifier::external_body]
pub(crate) fn base64_encode(data: &[u8]) -> (r: String)
    ensures
        r@ == base64_of(data@),
{
    base64::Engine::encode(&base64::engine::general_purpose::STANDARD, data)
}

/// Relies on `base64::engine::general_purpose::STANDARD.decode`; `None` on any decode error.
#[verifier::external_body]
pub(crate) fn base64_decode(s: &str) -> (r: Option<Vec<u8>>)
    ensures
        match r {
            Some(v) => base64_decoded(s@) == Some(v@),
            None => base64_decoded(s@) is None,
        },
{
    base64::Engine::decode(&base64::engine::general_purpose::STANDARD, s).ok()
}

/// Relies on `String::from_utf8`: succeeds exactly on well-formed UTF-8, and
/// then holds the decoded characters.
#[verifier::external_body]
pub(crate) fn utf8_decode(bytes: Vec<u8>) -> (r: Option<String>)
    ensures
        r is Some <==> valid_utf8(bytes@),
        r is Some ==> r->0@ == decode_utf8(bytes@),
{
    String::from_utf8(bytes).ok()
}

/// Relies on `ed25519_dalek::VerifyingKey::from_bytes` and its `Verifier::verify`:
/// `true` when the key decodes and the signature checks out over `msg`.
#[verifier::external_body]
pub(crate) fn ed25519_verify(key: &[u8], msg: &[u8], sig: &[u8]) -> (r: bool)
    requires
        key@.len() == 32,
        sig@.len() == 64,
    ensures
        r == ed25519_accepts(key@, msg@, sig@),
{
    let key: [u8; 32] = key.try_into().unwrap();
    let signature = ed25519_dalek::Signature::from_bytes(&sig.try_into().unwrap());
    match ed25519_dalek::VerifyingKey::from_bytes(&key) {
        Ok(k) => ed25519_dalek::Verifier::verify(&k, msg, &signature).is_ok(),
        Err(_) => false,
    }
}

/// Relies on `aes_gcm::Aes256Gcm`'s `Aead::decrypt` with no associated data;
/// `None` when the tag does not authenticate.
#[verifier::external_body]
pub(crate) fn aes256gcm_open(key: &[u8], nonce: &[u8], sealed: &[u8]) -> (r: Option<Vec<u8>>)
    requires
        key@.len() == 32,
        nonce@.len() == 12,
    ensures
        match r {
            Some(v) => aes256gcm_opened(key@, nonce@, sealed@) == Some(v@),
            None => aes256gcm_opened(key@, nonce@, sealed@) is None,
        },
{
    let cipher = <aes_gcm::Aes256Gcm as aes_gcm::aead::NewAead>::new(aes_gcm::Key::from_slice(key));
    aes_gcm::aead::Aead::decrypt(&cipher, aes_gcm::Nonce::from_slice(nonce), sealed).ok()
}

/// Relies on `chrono::DateTime::parse_from_rfc2822`, read as a Unix timestamp in seconds.
#[verifier::external_body]
pub(crate) fn parse_rfc2822(s: &str) -> (r: Option<i64>)
    ensures
        match r {
            Some(t) => rfc2822_seconds(s@) == Some(t as int),
            None => rfc2822_seconds(s@) is None,
        },
{
    chrono::DateTime::parse_from_rfc2822(s).ok().map(|d| d.timestamp())
}

/// Relies on `chrono::DateTime::parse_from_rfc3339`, read as a Unix timestamp in seconds.
#[verifier::external_body]
pub(crate) fn parse_rfc3339(s: &str) -> (r: Option<i64>)
    ensures
        match r {
            Some(t) => rfc3339_seconds(s@) == Some(t as int),
            None => rfc3339_seconds(s@) is None,
        },
{
    chrono::DateTime::parse_from_rfc3339(s).ok().map(|d| d.timestamp())
}

} // verus!
