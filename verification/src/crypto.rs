//! Trusted boundary to the outside cryptographic and codec crates.
//!
//! Each result that is a pure function of the arguments is given an
//! uninterpreted name; the verified code reasons about those names and the
//! short facts stated here, never about the algorithms themselves.

use vstd::prelude::*;

verus! {

/// The SHA-256 digest of a byte sequence.
pub uninterp spec fn sha256_of(bytes: Seq<u8>) -> Seq<u8>;

/// Whether 32 bytes decode to a valid Ed25519 verifying key.
pub uninterp spec fn ed25519_pk_valid(key: Seq<u8>) -> bool;

/// Whether an Ed25519 signature verifies under a key over a message.
pub uninterp spec fn ed25519_verifies(key: Seq<u8>, msg: Seq<u8>, sig: Seq<u8>) -> bool;

/// The Ed25519 signature produced from a 32-byte seed over a message
/// (Ed25519 signing is deterministic).
pub uninterp spec fn ed25519_sign_of(seed: Seq<u8>, msg: Seq<u8>) -> Seq<u8>;

/// The base64 encoding (standard alphabet, padded) of a byte sequence.
pub uninterp spec fn b64_encode_of(bytes: Seq<u8>) -> Seq<char>;

/// The base64 decoding (standard alphabet, padding required) of a string:
/// the decoded bytes, or nothing when the input is not valid base64.
pub uninterp spec fn b64_decode_of(s: Seq<char>) -> Option<Seq<u8>>;

/// Relies on sha2's Sha256::digest: the SHA-256 digest, which is 32 bytes
/// and depends on the input bytes alone.
#[verifier::external_body]
pub fn sha256(bytes: &[u8]) -> (r: Vec<u8>)
    ensures
        r@ == sha256_of(bytes@),
        r@.len() == 32,
{
    <sha2::Sha256 as sha2::Digest>::digest(bytes).to_vec()
}

/// Relies on ed25519_dalek's VerifyingKey::from_bytes: it accepts exactly
/// the 32-byte strings that decompress to a curve point, a property of the
/// bytes alone.
#[verifier::external_body]
pub fn ed25519_pk_check(key: &[u8]) -> (r: bool)
    requires
        key@.len() == 32,
    ensures
        r == ed25519_pk_valid(key@),
{
    let mut key_arr = [0u8; 32];
    key_arr.copy_from_slice(key);
    ed25519_dalek::VerifyingKey::from_bytes(&key_arr).is_ok()
}

/// Relies on ed25519_dalek's Verifier::verify (and VerifyingKey::from_bytes
/// to reconstruct the key, which cannot fail on a valid key): the outcome
/// depends only on the key, message and signature bytes.
#[verifier::external_body]
pub fn ed25519_verify(key: &[u8], msg: &[u8], sig: &[u8]) -> (r: bool)
    requires
        key@.len() == 32,
        sig@.len() == 64,
        ed25519_pk_valid(key@),
    ensures
        r == ed25519_verifies(key@, msg@, sig@),
{
    let mut key_arr = [0u8; 32];
    key_arr.copy_from_slice(key);
    let mut sig_arr = [0u8; 64];
    sig_arr.copy_from_slice(sig);
    match ed25519_dalek::VerifyingKey::from_bytes(&key_arr) {
        Err(_) => false,
        Ok(vk) => {
            let signature = ed25519_dalek::Signature::from_bytes(&sig_arr);
            ed25519_dalek::Verifier::verify(&vk, msg, &signature).is_ok()
        }
    }
}

/// Relies on ed25519_dalek's SigningKey::from_bytes and Signer::sign:
/// any 32 bytes form a signing key, and signing is deterministic in the
/// seed and message; a signature is 64 bytes.
#[verifier::external_body]
pub fn ed25519_sign(seed: &[u8; 32], msg: &[u8]) -> (r: Vec<u8>)
    ensures
        r@ == ed25519_sign_of(seed@, msg@),
        r@.len() == 64,
{
    let sk = ed25519_dalek::SigningKey::from_bytes(seed);
    ed25519_dalek::Signer::sign(&sk, msg).to_bytes().to_vec()
}

/// Relies on base64's Engine::encode with the STANDARD engine: standard
/// alphabet, padded; the output depends on the input bytes alone.
#[verifier::external_body]
pub fn b64_encode(bytes: &[u8]) -> (r: String)
    ensures
        r@ == b64_encode_of(bytes@),
{
    base64::Engine::encode(&base64::engine::general_purpose::STANDARD, bytes)
}

/// Relies on base64's Engine::decode with the STANDARD engine: decoding is
/// a function of the input string alone, and fails exactly on inputs that
/// are not canonically padded standard-alphabet base64.
#[verifier::external_body]
pub fn b64_decode(s: &str) -> (r: Option<Vec<u8>>)
    ensures
        match r {
            Some(v) => b64_decode_of(s@) == Some(v@),
            None => b64_decode_of(s@) is None,
        },
{
    base64::Engine::decode(&base64::engine::general_purpose::STANDARD, s.as_bytes()).ok()
}

} // verus!
