//! Byte and text encodings, digests, randomness and signatures, each delegated to
//! the outside crate that the service uses for it.

use base64::Engine;
use ed25519_dalek::{Signer, Verifier};
use sha2::Digest;
use vstd::prelude::*;

use crate::text::{opt_string_view, pairs_view};

verus! {

/// What `bs58::encode(..).into_string()` makes of `bytes` (Bitcoin alphabet).
pub uninterp spec fn base58_encode(bytes: Seq<u8>) -> Seq<char>;

/// What `bs58::decode(..).into_vec()` makes of `text`; `None` when the crate
/// reports an error (a character outside the alphabet).
pub uninterp spec fn base58_decode(text: Seq<char>) -> Option<Seq<u8>>;

/// What the `base64` engine `URL_SAFE_NO_PAD` decodes `text` to; `None` when it
/// reports an error (the engine refuses padding and characters outside the
/// URL-safe alphabet).
pub uninterp spec fn base64url_decode(text: Seq<char>) -> Option<Seq<u8>>;

/// What the `base64` engine `URL_SAFE_NO_PAD` encodes `bytes` to.
pub uninterp spec fn base64url_encode(bytes: Seq<u8>) -> Seq<char>;

/// The SHA-256 digest of `data`, as `sha2::Sha256` computes it.
pub uninterp spec fn sha256(data: Seq<u8>) -> Seq<u8>;

/// The Ed25519 public key that `ed25519_dalek` derives from a 32-byte secret key.
pub uninterp spec fn ed25519_public_key(secret: Seq<u8>) -> Seq<u8>;

/// The Ed25519 signature that `ed25519_dalek` makes over `message` with a
/// 32-byte secret key (Ed25519 signing is deterministic).
pub uninterp spec fn ed25519_signature(secret: Seq<u8>, message: Seq<u8>) -> Seq<u8>;

/// Whether `ed25519_dalek` accepts `signature` over `message` under the
/// 32-byte public key `public_key`: `VerifyingKey::from_bytes` decodes the key
/// and `Verifier::verify` accepts the 64-byte signature.
pub uninterp spec fn ed25519_verifies(public_key: Seq<u8>, message: Seq<u8>, signature: Seq<u8>) -> bool;

/// A character of the Bitcoin base58 alphabet
/// `123456789ABCDEFGHJKLMNPQRSTUVWXYZabcdefghijkmnopqrstuvwxyz`: the digits but
/// `0`, and the letters but `I`, `O` and `l`.
pub open spec fn is_base58_char(c: char) -> bool {
    ||| ('1' <= c && c <= '9')
    ||| ('A' <= c && c <= 'Z' && c != 'I' && c != 'O')
    ||| ('a' <= c && c <= 'z' && c != 'l')
}

/// Calls `bs58::encode(bytes).into_string()`. The contract names the result
/// [`base58_encode`] and states:
/// - that `bs58::decode` gives the bytes back (the codec is exact: each leading
///   zero byte becomes one leading `1`, and the crate's encode and decode tests
///   run the same table both ways);
/// - that every character is of the default (Bitcoin) alphabet (`encode_into`
///   maps each base-58 digit through the alphabet's table);
/// - that there are at least as many characters as bytes (decoding writes at
///   most one byte per input character, its buffer being sized to the input's
///   length, and decoding this text gives back all of `bytes`).
#[verifier::external_body]
pub(crate) fn bs58_encode(bytes: &[u8]) -> (r: String)
    ensures
        r@ == base58_encode(bytes@),
        base58_decode(r@) == Some(bytes@),
        forall|i: int| 0 <= i < r@.len() ==> is_base58_char(#[trigger] r@[i]),
        r@.len() >= bytes@.len(),
{
    bs58::encode(bytes).into_string()
}

/// Calls `bs58::decode(text).into_vec()`, mapping the crate's error to `None`.
/// The contract names the result [`base58_decode`].
#[verifier::external_body]
pub(crate) fn bs58_decode(text: &str) -> (r: Option<Vec<u8>>)
    ensures
        match r {
            Some(v) => base58_decode(text@) == Some(v@),
            None => base58_decode(text@) is None,
        },
{
    bs58::decode(text).into_vec().ok()
}

/// Calls `URL_SAFE_NO_PAD.decode(text)` of the `base64` crate, mapping its error to
/// `None`. The contract names the result [`base64url_decode`].
#[verifier::external_body]
pub(crate) fn b64url_decode(text: &str) -> (r: Option<Vec<u8>>)
    ensures
        match r {
            Some(v) => base64url_decode(text@) == Some(v@),
            None => base64url_decode(text@) is None,
        },
{
    base64::engine::general_purpose::URL_SAFE_NO_PAD.decode(text).ok()
}

/// Calls `URL_SAFE_NO_PAD.encode(bytes)` of the `base64` crate. The contract names
/// the result [`base64url_encode`].
#[verifier::external_body]
pub(crate) fn b64url_encode(bytes: &[u8]) -> (r: String)
    ensures
        r@ == base64url_encode(bytes@),
{
    base64::engine::general_purpose::URL_SAFE_NO_PAD.encode(bytes)
}

/// Calls `sha2::Sha256::digest(data)`. The contract names the result [`sha256`]
/// and states the digest length of 32 bytes that SHA-256 has by definition.
#[verifier::external_body]
pub(crate) fn sha256_digest(data: &[u8]) -> (r: Vec<u8>)
    ensures
        r@ == sha256(data@),
        r@.len() == 32,
{
    sha2::Sha256::digest(data).to_vec()
}

/// Calls `getrandom::fill` on a fresh buffer of `n` bytes. `None` when the crate
/// reports that the OS generator is unavailable; otherwise the `n` bytes, about
/// whose values nothing is claimed.
#[verifier::external_body]
pub(crate) fn os_random_bytes(n: usize) -> (r: Option<Vec<u8>>)
    ensures
        r matches Some(v) ==> v@.len() == n,
{
    let mut bytes = vec![0u8; n];
    match getrandom::fill(&mut bytes) {
        Ok(()) => Some(bytes),
        Err(_) => None,
    }
}

/// Calls `ed25519_dalek::SigningKey::from_bytes(secret).verifying_key().to_bytes()`.
/// The contract names the result [`ed25519_public_key`] and states its 32-byte length.
#[verifier::external_body]
pub(crate) fn ed25519_verifying_key(secret: &[u8]) -> (r: Vec<u8>)
    requires
        secret@.len() == 32,
    ensures
        r@ == ed25519_public_key(secret@),
        r@.len() == 32,
{
    let secret: [u8; 32] = secret.try_into().unwrap();
    ed25519_dalek::SigningKey::from_bytes(&secret).verifying_key().to_bytes().to_vec()
}

/// Calls `ed25519_dalek::SigningKey::from_bytes(secret).sign(message).to_bytes()`.
/// The contract names the result [`ed25519_signature`], states its 64-byte
/// length, and states what the crate documents of a signature: the verifying
/// key of the signing key accepts it.
#[verifier::external_body]
pub(crate) fn ed25519_sign(secret: &[u8], message: &[u8]) -> (r: Vec<u8>)
    requires
        secret@.len() == 32,
    ensures
        r@ == ed25519_signature(secret@, message@),
        r@.len() == 64,
        ed25519_verifies(ed25519_public_key(secret@), message@, r@),
{
    let secret: [u8; 32] = secret.try_into().unwrap();
    ed25519_dalek::SigningKey::from_bytes(&secret).sign(message).to_bytes().to_vec()
}

/// What `url::form_urlencoded::Serializer` writes for `pairs`: the
/// `application/x-www-form-urlencoded` body carrying them in order.
pub uninterp spec fn form_urlencoded(pairs: Seq<(Seq<char>, Seq<char>)>) -> Seq<char>;

/// What `url::Url::parse_with_params(input, params)` gives, as the URL's text:
/// `None` when `input` is not an absolute URL, else the URL with `params`
/// appended to its query in order.
pub uninterp spec fn url_with_query(input: Seq<char>, params: Seq<(Seq<char>, Seq<char>)>) -> Option<Seq<char>>;

/// Calls `url::form_urlencoded::Serializer::new(String::new())`, appends
/// `pairs` with `extend_pairs` and takes the body with `finish`. The contract
/// names the result [`form_urlencoded`].
#[verifier::external_body]
pub(crate) fn form_body(pairs: &Vec<(String, String)>) -> (r: String)
    ensures
        r@ == form_urlencoded(pairs_view(pairs@)),
{
    url::form_urlencoded::Serializer::new(String::new()).extend_pairs(pairs.iter()).finish()
}

/// Calls `url::Url::parse_with_params(input, params)` and converts the URL to
/// its text. The contract names the result [`url_with_query`].
#[verifier::external_body]
pub(crate) fn url_with_params(input: &str, params: &Vec<(String, String)>) -> (r: Option<String>)
    ensures
        opt_string_view(r) == url_with_query(input@, pairs_view(params@)),
{
    match url::Url::parse_with_params(input, params.iter()) {
        Ok(url) => Some(String::from(url)),
        Err(_) => None,
    }
}

/// What `String::from_utf8_lossy` makes of `bytes`: their UTF-8 text, with
/// each invalid sequence replaced by U+FFFD.
pub uninterp spec fn utf8_lossy(bytes: Seq<u8>) -> Seq<char>;

/// Calls `String::from_utf8_lossy(bytes)` and takes the text as an owned
/// string. The contract names the result [`utf8_lossy`].
#[verifier::external_body]
pub(crate) fn utf8_lossy_text(bytes: &[u8]) -> (r: String)
    ensures
        r@ == utf8_lossy(bytes@),
{
    String::from_utf8_lossy(bytes).into_owned()
}

/// Calls `ed25519_dalek::VerifyingKey::from_bytes(public_key)` and, when the
/// key decodes, `Verifier::verify(message, &Signature::from_bytes(signature))`;
/// a key that does not decode gives `false`. The contract names the result
/// [`ed25519_verifies`].
#[verifier::external_body]
pub(crate) fn ed25519_verify(public_key: &[u8], message: &[u8], signature: &[u8]) -> (r: bool)
    requires
        public_key@.len() == 32,
        signature@.len() == 64,
    ensures
        r == ed25519_verifies(public_key@, message@, signature@),
{
    let key: [u8; 32] = public_key.try_into().unwrap();
    let sig: [u8; 64] = signature.try_into().unwrap();
    match ed25519_dalek::VerifyingKey::from_bytes(&key) {
        Ok(k) => k.verify(message, &ed25519_dalek::Signature::from_bytes(&sig)).is_ok(),
        Err(_) => false,
    }
}

} // verus!
