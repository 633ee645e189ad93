//! Capability contracts the verifier is wired with: device trust
//! resolution, per-device chain state, and acknowledgement signing.
//!
//! Each trait pairs its operations with a spec-level model, so that the
//! verifier's own contract can be stated over the models of whatever
//! implementations it holds.

use vstd::prelude::*;

use crate::types::{KeyModel, VerifyingKey};

verus! {

/// The value of an optional borrowed string.
pub open spec fn opt_str_view(s: Option<&str>) -> Option<Seq<char>> {
    match s {
        Some(t) => Some(t@),
        None => None,
    }
}

/// Maps `(device_id, key_id)` to verifying key material and reports
/// revocation. Implementations may be static, registry-backed or networked.
pub trait DeviceTrust {
    /// The key the resolver associates with a device and optional key id.
    spec fn key_model(&self, device_id: Seq<char>, key_id: Option<Seq<char>>) -> Option<KeyModel>;

    /// Whether the resolver considers the key revoked.
    spec fn revoked_model(&self, device_id: Seq<char>, key_id: Option<Seq<char>>) -> bool;

    /// Return a verifying key for `device_id` and an optional `key_id`,
    /// or nothing when the device or key is unknown.
    fn get_key(&self, device_id: &str, key_id: Option<&str>) -> (r: Option<VerifyingKey>)
        ensures
            match r {
                Some(k) => self.key_model(device_id@, opt_str_view(key_id)) == Some(k@),
                None => self.key_model(device_id@, opt_str_view(key_id)) is None,
            },
    ;

    /// Whether the device/key is revoked; if true, verification must fail.
    fn is_revoked(&self, device_id: &str, key_id: Option<&str>) -> (r: bool)
        ensures
            r == self.revoked_model(device_id@, opt_str_view(key_id)),
    ;
}

/// Minimal chain state per device: the hash and nonce of the last accepted
/// entry. The verifier reads both, checks the link, and commits on accept.
pub trait ChainStore {
    /// The map from device id to the last accepted `(hash, nonce)` pair.
    spec fn chain(&self) -> Map<Seq<char>, (Seq<char>, u64)>;

    /// The last accepted entry hash for a device, if any.
    fn last_hash(&self, device_id: &str) -> (r: Option<String>)
        ensures
            match r {
                Some(h) => self.chain().contains_key(device_id@)
                    && h@ == self.chain()[device_id@].0,
                None => !self.chain().contains_key(device_id@),
            },
    ;

    /// The last accepted nonce for a device, if any.
    fn last_nonce(&self, device_id: &str) -> (r: Option<u64>)
        ensures
            match r {
                Some(n) => self.chain().contains_key(device_id@)
                    && n == self.chain()[device_id@].1,
                None => !self.chain().contains_key(device_id@),
            },
    ;

    /// Set or overwrite the `(hash, nonce)` pair for a device.
    fn update(&mut self, device_id: &str, last_hash: String, last_nonce: u64)
        ensures
            final(self).chain() == old(self).chain().insert(
                device_id@,
                (last_hash@, last_nonce),
            ),
    ;
}

/// Server-side acknowledgement signer. Signing must be deterministic in
/// the message, so its result is modelled as a function of the bytes.
pub trait AckSigner {
    /// The identifier baked into every acknowledgement this signer signs.
    spec fn id_model(&self) -> Seq<char>;

    /// The signature this signer produces over a message.
    spec fn sig_model(&self, msg: Seq<u8>) -> Seq<u8>;

    /// Identifier of the server signing key (e.g. "server-key-1").
    fn signer_id(&self) -> (r: &'static str)
        ensures
            r@ == self.id_model(),
    ;

    /// Produce a signature over the canonicalized acknowledgement fields.
    fn sign(&self, msg: &[u8]) -> (r: Vec<u8>)
        ensures
            r@ == self.sig_model(msg@),
    ;
}

} // verus!
