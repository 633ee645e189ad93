//! The orchestrator: hash integrity, trust lookup, signature verification,
//! chain rules, commit and acknowledgement, in that strict order, plus the
//! bundled in-memory chain store, static trust resolver and Ed25519
//! acknowledgement signer.

use vstd::prelude::*;

use crate::crypto::{
    b64_decode, b64_decode_of, b64_encode, b64_encode_of, ed25519_pk_check, ed25519_pk_valid,
    ed25519_sign, ed25519_sign_of, ed25519_verifies, ed25519_verify,
};
use crate::errors::{ErrModel, VerifyError};
use crate::traits::{opt_str_view, AckSigner, ChainStore, DeviceTrust};
use crate::types::{
    ack_sign_input_bytes, cbor_for_ack_sign, cbor_for_sign, compute_entry_hash, entry_hash_hex,
    sign_input_bytes, Ack, AckModel, EntryModel, KeyModel, LogEntry, VerifyingKey,
};

verus! {

/// One device's last accepted entry, as held by the in-memory store.
struct ChainRow {
    device_id: String,
    last_hash: String,
    last_nonce: u64,
}

/// The map a row history denotes: later rows overwrite earlier ones, so
/// the newest row for a device is authoritative.
spec fn rows_chain(rows: Seq<ChainRow>) -> Map<Seq<char>, (Seq<char>, u64)>
    decreases rows.len(),
{
    if rows.len() == 0 {
        Map::empty()
    } else {
        rows_chain(rows.drop_last()).insert(
            rows.last().device_id@,
            (rows.last().last_hash@, rows.last().last_nonce),
        )
    }
}

/// Simple in-memory chain store suitable for tests and single-process
/// demos. It appends a row per accepted entry; lookups return the newest
/// row for the device.
pub struct InMemoryChainStore {
    rows: Vec<ChainRow>,
}

impl InMemoryChainStore {
    /// Create a new, empty in-memory chain store.
    pub fn new() -> (r: Self)
        ensures
            r.chain() == Map::<Seq<char>, (Seq<char>, u64)>::empty(),
    {
        InMemoryChainStore { rows: Vec::new() }
    }
}

impl Default for InMemoryChainStore {
    fn default() -> (r: Self)
        ensures
            r.chain() == Map::<Seq<char>, (Seq<char>, u64)>::empty(),
    {
        InMemoryChainStore::new()
    }
}

impl ChainStore for InMemoryChainStore {
    closed spec fn chain(&self) -> Map<Seq<char>, (Seq<char>, u64)> {
        rows_chain(self.rows@)
    }

    fn last_hash(&self, device_id: &str) -> (r: Option<String>) {
        let key = device_id.to_owned();
        let mut result: Option<String> = None;
        let mut i: usize = 0;
        while i < self.rows.len()
            invariant
                i <= self.rows@.len(),
                key@ == device_id@,
                match result {
                    Some(h) => rows_chain(self.rows@.take(i as int)).contains_key(device_id@)
                        && h@ == rows_chain(self.rows@.take(i as int))[device_id@].0,
                    None => !rows_chain(self.rows@.take(i as int)).contains_key(device_id@),
                },
            decreases self.rows@.len() - i,
        {
            proof {
                assert(self.rows@.take(i + 1 as int).drop_last() =~= self.rows@.take(i as int));
            }
            if self.rows[i].device_id == key {
                result = Some(self.rows[i].last_hash.clone());
            }
            i = i + 1;
        }
        proof {
            assert(self.rows@.take(self.rows@.len() as int) =~= self.rows@);
        }
        result
    }

    fn last_nonce(&self, device_id: &str) -> (r: Option<u64>) {
        let key = device_id.to_owned();
        let mut result: Option<u64> = None;
        let mut i: usize = 0;
        while i < self.rows.len()
            invariant
                i <= self.rows@.len(),
                key@ == device_id@,
                match result {
                    Some(n) => rows_chain(self.rows@.take(i as int)).contains_key(device_id@)
                        && n == rows_chain(self.rows@.take(i as int))[device_id@].1,
                    None => !rows_chain(self.rows@.take(i as int)).contains_key(device_id@),
                },
            decreases self.rows@.len() - i,
        {
            proof {
                assert(self.rows@.take(i + 1 as int).drop_last() =~= self.rows@.take(i as int));
            }
            if self.rows[i].device_id == key {
                result = Some(self.rows[i].last_nonce);
            }
            i = i + 1;
        }
        proof {
            assert(self.rows@.take(self.rows@.len() as int) =~= self.rows@);
        }
        result
    }

    fn update(&mut self, device_id: &str, last_hash: String, last_nonce: u64) {
        let row = ChainRow { device_id: device_id.to_owned(), last_hash, last_nonce };
        self.rows.push(row);
        proof {
            assert(self.rows@.drop_last() =~= old(self).rows@);
        }
    }
}

/// The verdict of the chain-link and nonce rules against the stored state:
/// a first entry must carry no previous hash; a later entry must link to
/// the stored hash and strictly increase the stored nonce.
pub open spec fn chain_verdict(
    chain: Map<Seq<char>, (Seq<char>, u64)>,
    e: EntryModel,
) -> Option<ErrModel> {
    if chain.contains_key(e.device_id) {
        match e.previous_entry_hash {
            None => Some(ErrModel::PreviousHashMismatch),
            Some(p) => if p != chain[e.device_id].0 {
                Some(ErrModel::PreviousHashMismatch)
            } else if e.nonce <= chain[e.device_id].1 {
                Some(ErrModel::NonceNotMonotonic)
            } else {
                None
            },
        }
    } else {
        match e.previous_entry_hash {
            Some(_) => Some(ErrModel::PreviousHashMismatch),
            None => None,
        }
    }
}

/// The verdict of the whole verification pipeline over an entry, given the
/// trust resolver's answers and the stored chain state: the error returned,
/// or nothing when the entry is accepted. Each rule is checked in the
/// strict order hash, trust, revocation, algorithm, signature, chain link,
/// nonce; the first failure wins.
pub open spec fn verdict(
    key: Option<KeyModel>,
    revoked: bool,
    chain: Map<Seq<char>, (Seq<char>, u64)>,
    e: EntryModel,
) -> Option<ErrModel> {
    if e.entry_hash != entry_hash_hex(e) {
        Some(ErrModel::HashMismatch)
    } else {
        match key {
            None => Some(ErrModel::DeviceUnknown(e.device_id)),
            Some(k) => if revoked {
                Some(ErrModel::Revoked(e.device_id))
            } else if k.algo != e.algo {
                Some(ErrModel::UnsupportedAlgo(e.algo))
            } else if e.algo != "ed25519"@ {
                Some(ErrModel::UnsupportedAlgo(e.algo))
            } else if k.key.len() != 32 {
                Some(ErrModel::Malformed("ed25519 pubkey length"@))
            } else if !ed25519_pk_valid(k.key) {
                Some(ErrModel::Malformed("bad ed25519 pubkey"@))
            } else {
                match b64_decode_of(e.signature) {
                    None => Some(ErrModel::Malformed("signature base64"@)),
                    Some(sig) => if sig.len() != 64 {
                        Some(ErrModel::Malformed("signature length"@))
                    } else if !ed25519_verifies(k.key, sign_input_bytes(e), sig) {
                        Some(ErrModel::InvalidSignature)
                    } else {
                        chain_verdict(chain, e)
                    },
                }
            },
        }
    }
}

/// Whether an entry passes every check that precedes the chain rules:
/// its declared hash is the computed hash, the trust resolver knows the
/// key and does not revoke it, algorithms agree on ed25519, the key is a
/// valid 32-byte Ed25519 key, and the signature decodes to 64 bytes that
/// verify over the canonical-for-sign bytes.
pub open spec fn passes_static_checks(key: Option<KeyModel>, revoked: bool, e: EntryModel) -> bool {
    &&& e.entry_hash == entry_hash_hex(e)
    &&& key is Some
    &&& !revoked
    &&& key.unwrap().algo == e.algo
    &&& e.algo == "ed25519"@
    &&& key.unwrap().key.len() == 32
    &&& ed25519_pk_valid(key.unwrap().key)
    &&& b64_decode_of(e.signature) is Some
    &&& b64_decode_of(e.signature).unwrap().len() == 64
    &&& ed25519_verifies(key.unwrap().key, sign_input_bytes(e), b64_decode_of(e.signature).unwrap())
}

/// The acknowledgement for an accepted entry, before or after signing:
/// both hash fields carry the accepted entry's hash, the status is
/// "accepted", and the signature field holds `signature`.
pub open spec fn accepted_ack(
    e: EntryModel,
    now_ts: i64,
    signer_id: Seq<char>,
    signature: Seq<char>,
) -> AckModel {
    AckModel {
        entry_id: e.entry_hash,
        new_entry_hash: e.entry_hash,
        status: "accepted"@,
        timestamp: now_ts,
        server_signer_id: signer_id,
        server_signature: signature,
    }
}

/// The acknowledgement as canonicalized for signing: its signature field
/// is still empty.
pub open spec fn unsigned_ack(e: EntryModel, now_ts: i64, signer_id: Seq<char>) -> AckModel {
    accepted_ack(e, now_ts, signer_id, Seq::empty())
}

/// The signed acknowledgement issued for an accepted entry by a signer
/// with the given identity and signing function.
pub open spec fn issued_ack(
    e: EntryModel,
    now_ts: i64,
    signer_id: Seq<char>,
    signature_bytes: Seq<u8>,
) -> AckModel {
    accepted_ack(e, now_ts, signer_id, b64_encode_of(signature_bytes))
}

/// Verifier coordinates trust, chain state, and acknowledgement signing.
pub struct Verifier<T: DeviceTrust, S: ChainStore, A: AckSigner> {
    pub trust: T,
    pub store: S,
    pub ack_signer: A,
}

impl<T: DeviceTrust, S: ChainStore, A: AckSigner> Verifier<T, S, A> {
    /// Create a new `Verifier` with the given trust source, chain store,
    /// and acknowledgement signer.
    pub fn new(trust: T, store: S, ack_signer: A) -> (r: Self)
        ensures
            r.trust == trust,
            r.store == store,
            r.ack_signer == ack_signer,
    {
        Verifier { trust, store, ack_signer }
    }

    /// Verify a parsed `LogEntry`, enforce the chain rules, and return a
    /// signed acknowledgement.
    ///
    /// The result is exactly the verdict of [`verdict`] over the trust
    /// resolver's answers and the stored chain state: on failure the error
    /// is returned and nothing changes; on acceptance the store is updated
    /// to the entry's hash and nonce and the acknowledgement is issued and
    /// signed over its canonical bytes.
    pub fn process_entry(&mut self, entry: &LogEntry, now_ts: i64) -> (r: Result<
        Ack,
        VerifyError,
    >)
        ensures
            final(self).trust == old(self).trust,
            final(self).ack_signer == old(self).ack_signer,
            match verdict(
                old(self).trust.key_model(entry@.device_id, entry@.key_id),
                old(self).trust.revoked_model(entry@.device_id, entry@.key_id),
                old(self).store.chain(),
                entry@,
            ) {
                Some(em) => r matches Err(err) && err@ == em && *final(self) == *old(self),
                None => r matches Ok(a) && final(self).store.chain() == old(self).store.chain()
                    .insert(entry@.device_id, (entry@.entry_hash, entry@.nonce)) && a@
                    == issued_ack(
                    entry@,
                    now_ts,
                    old(self).ack_signer.id_model(),
                    old(self).ack_signer.sig_model(
                        ack_sign_input_bytes(
                            unsigned_ack(entry@, now_ts, old(self).ack_signer.id_model()),
                        ),
                    ),
                ),
            },
    {
        // 1) Hash integrity
        let computed = compute_entry_hash(entry);
        if !(computed == entry.entry_hash) {
            return Err(VerifyError::HashMismatch);
        }
        // 2) Trust lookup and revocation
        let kid: Option<&str> = match &entry.key_id {
            Some(s) => Some(s.as_str()),
            None => None,
        };
        proof {
            assert(opt_str_view(kid) == entry@.key_id);
        }
        let vk = match self.trust.get_key(entry.device_id.as_str(), kid) {
            Some(k) => k,
            None => {
                return Err(VerifyError::DeviceUnknown(entry.device_id.clone()));
            },
        };
        if self.trust.is_revoked(entry.device_id.as_str(), kid) {
            return Err(VerifyError::Revoked(entry.device_id.clone()));
        }
        if !(vk.algo == entry.algo) {
            return Err(VerifyError::UnsupportedAlgo(entry.algo.clone()));
        }
        // 3) Signature verification, dispatched on the algorithm
        let ed = "ed25519".to_owned();
        if !(entry.algo == ed) {
            return Err(VerifyError::UnsupportedAlgo(entry.algo.clone()));
        }
        if vk.key.len() != 32 {
            return Err(VerifyError::Malformed("ed25519 pubkey length".to_owned()));
        }
        if !ed25519_pk_check(vk.key.as_slice()) {
            return Err(VerifyError::Malformed("bad ed25519 pubkey".to_owned()));
        }
        let sig_bytes = match b64_decode(entry.signature.as_str()) {
            Some(b) => b,
            None => {
                return Err(VerifyError::Malformed("signature base64".to_owned()));
            },
        };
        if sig_bytes.len() != 64 {
            return Err(VerifyError::Malformed("signature length".to_owned()));
        }
        let msg = cbor_for_sign(entry);
        if !ed25519_verify(vk.key.as_slice(), msg.as_slice(), sig_bytes.as_slice()) {
            return Err(VerifyError::InvalidSignature);
        }
        // 4) Chain link and nonce rules
        let last_h = self.store.last_hash(entry.device_id.as_str());
        let last_n = self.store.last_nonce(entry.device_id.as_str());
        match (&last_h, &entry.previous_entry_hash) {
            (None, None) => {},
            (Some(h), Some(prev)) => {
                if !(*h == *prev) {
                    return Err(VerifyError::PreviousHashMismatch);
                }
            },
            _ => {
                return Err(VerifyError::PreviousHashMismatch);
            },
        }
        if let Some(n) = last_n {
            if entry.nonce <= n {
                return Err(VerifyError::NonceNotMonotonic);
            }
        }
        // 5) Commit, then acknowledge
        self.store.update(entry.device_id.as_str(), entry.entry_hash.clone(), entry.nonce);
        let ack = self.make_ack(entry, now_ts);
        Ok(ack)
    }

    /// Construct and sign an acknowledgement for an accepted entry.
    fn make_ack(&self, entry: &LogEntry, now_ts: i64) -> (r: Ack)
        ensures
            r@ == issued_ack(
                entry@,
                now_ts,
                self.ack_signer.id_model(),
                self.ack_signer.sig_model(
                    ack_sign_input_bytes(unsigned_ack(entry@, now_ts, self.ack_signer.id_model())),
                ),
            ),
    {
        let server_signer_id = self.ack_signer.signer_id();
        let mut ack = Ack {
            entry_id: entry.entry_hash.clone(),
            new_entry_hash: entry.entry_hash.clone(),
            status: "accepted".to_owned(),
            timestamp: now_ts,
            server_signer_id: server_signer_id.to_owned(),
            server_signature: String::new(),
        };
        proof {
            assert(ack@ == unsigned_ack(entry@, now_ts, self.ack_signer.id_model()));
        }
        let msg = cbor_for_ack_sign(&ack);
        let sig = self.ack_signer.sign(msg.as_slice());
        ack.server_signature = b64_encode(sig.as_slice());
        ack
    }
}

/// Ed25519 implementation of `AckSigner` suitable for tests and demos.
/// It derives the signing key from a fixed 32-byte seed.
pub struct Ed25519AckSigner {
    id: &'static str,
    seed: [u8; 32],
}

impl Ed25519AckSigner {
    /// Create a signer from a fixed 32-byte secret key seed and a static
    /// identifier.
    pub fn from_secret_key(id: &'static str, secret_key: [u8; 32]) -> (r: Self)
        ensures
            r.id_model() == id@,
            forall|msg: Seq<u8>| r.sig_model(msg) == ed25519_sign_of(secret_key@, msg),
    {
        Ed25519AckSigner { id, seed: secret_key }
    }
}

impl AckSigner for Ed25519AckSigner {
    closed spec fn id_model(&self) -> Seq<char> {
        self.id@
    }

    closed spec fn sig_model(&self, msg: Seq<u8>) -> Seq<u8> {
        ed25519_sign_of(self.seed@, msg)
    }

    fn signer_id(&self) -> (r: &'static str) {
        self.id
    }

    fn sign(&self, msg: &[u8]) -> (r: Vec<u8>) {
        ed25519_sign(&self.seed, msg)
    }
}

/// A trust resolver with at most one fixed key: every device resolves to
/// the same verifying key (or to none at all), and revocation is a fixed
/// flag.
pub struct StaticTrust {
    pub key: Option<VerifyingKey>,
    pub revoked: bool,
}

impl DeviceTrust for StaticTrust {
    open spec fn key_model(&self, device_id: Seq<char>, key_id: Option<Seq<char>>) -> Option<
        KeyModel,
    > {
        match self.key {
            Some(k) => Some(k@),
            None => None,
        }
    }

    open spec fn revoked_model(&self, device_id: Seq<char>, key_id: Option<Seq<char>>) -> bool {
        self.revoked
    }

    fn get_key(&self, device_id: &str, key_id: Option<&str>) -> (r: Option<VerifyingKey>) {
        match &self.key {
            Some(k) => Some(k.clone()),
            None => None,
        }
    }

    fn is_revoked(&self, device_id: &str, key_id: Option<&str>) -> (r: bool) {
        self.revoked
    }
}

} // verus!
