//! The wire data model: log entries, acknowledgements and verifying keys,
//! together with their canonical encodings and the entry hash.
//!
//! An entry is canonicalized as a CBOR tuple with a fixed positional field
//! order; field identity is positional, so adding a field is a breaking
//! change. The wire format version is canonicalized as an unsigned integer.

use vstd::prelude::*;

use crate::codec::{
    cbor_array_header, cbor_int, cbor_opt_text, cbor_text, cbor_uint, hex_encode, hex_of,
    push_array_header, push_int, push_opt_text, push_text, push_uint,
};
use crate::crypto::{sha256, sha256_of};

verus! {

/// Public verifying key material for a device.
pub struct VerifyingKey {
    pub algo: String,
    pub key: Vec<u8>,
    pub key_id: Option<String>,
}

/// The mathematical value of a [`VerifyingKey`].
pub struct KeyModel {
    pub algo: Seq<char>,
    pub key: Seq<u8>,
    pub key_id: Option<Seq<char>>,
}

impl View for VerifyingKey {
    type V = KeyModel;

    open spec fn view(&self) -> KeyModel {
        KeyModel {
            algo: self.algo@,
            key: self.key@,
            key_id: match self.key_id {
                Some(k) => Some(k@),
                None => None,
            },
        }
    }
}

impl Clone for VerifyingKey {
    fn clone(&self) -> (r: Self)
        ensures
            r@ == self@,
    {
        VerifyingKey {
            algo: self.algo.clone(),
            key: self.key.clone(),
            key_id: match &self.key_id {
                Some(k) => Some(k.clone()),
                None => None,
            },
        }
    }
}

/// A device-emitted log record, one link of the device's hash chain.
#[derive(Debug, Clone, PartialEq)]
pub struct LogEntry {
    /// Wire format version; currently 1.
    pub version: u32,
    /// Lowercase hex SHA-256 over the canonical-for-hash bytes; declared by
    /// the device and verified, never trusted.
    pub entry_hash: String,
    /// Stable device identifier.
    pub device_id: String,
    /// Device-local seconds since epoch; not validated.
    pub timestamp: i64,
    /// Device session identifier; informational only, it never resets
    /// chain state.
    pub session_id: String,
    /// Monotonic counter per device, across all sessions.
    pub nonce: u64,
    /// Signature algorithm identifier; "ed25519" is the only accepted value.
    pub algo: String,
    /// Selects a specific verifying key under the device.
    pub key_id: Option<String>,
    /// Opaque application data.
    pub payload: String,
    /// Base64 (standard alphabet) signature over the canonical-for-sign bytes.
    pub signature: String,
    /// Hex hash of the immediately prior accepted entry for this device;
    /// absent exactly on the device's first entry.
    pub previous_entry_hash: Option<String>,
}

/// The mathematical value of a [`LogEntry`].
pub struct EntryModel {
    pub version: u32,
    pub entry_hash: Seq<char>,
    pub device_id: Seq<char>,
    pub timestamp: i64,
    pub session_id: Seq<char>,
    pub nonce: u64,
    pub algo: Seq<char>,
    pub key_id: Option<Seq<char>>,
    pub payload: Seq<char>,
    pub signature: Seq<char>,
    pub previous_entry_hash: Option<Seq<char>>,
}

impl View for LogEntry {
    type V = EntryModel;

    open spec fn view(&self) -> EntryModel {
        EntryModel {
            version: self.version,
            entry_hash: self.entry_hash@,
            device_id: self.device_id@,
            timestamp: self.timestamp,
            session_id: self.session_id@,
            nonce: self.nonce,
            algo: self.algo@,
            key_id: match self.key_id {
                Some(k) => Some(k@),
                None => None,
            },
            payload: self.payload@,
            signature: self.signature@,
            previous_entry_hash: match self.previous_entry_hash {
                Some(p) => Some(p@),
                None => None,
            },
        }
    }
}

/// Server acknowledgement of an accepted entry.
#[derive(Debug, Clone, PartialEq)]
pub struct Ack {
    /// The accepted entry's hash.
    pub entry_id: String,
    /// Currently always equal to `entry_id`; reserved.
    pub new_entry_hash: String,
    /// "accepted" on success; transports encode failures as
    /// "error:<kind>[:<detail>]".
    pub status: String,
    /// Server receipt time, seconds since epoch.
    pub timestamp: i64,
    /// Identifier of the server signing key.
    pub server_signer_id: String,
    /// Base64 signature over the canonical-for-ack-sign bytes.
    pub server_signature: String,
}

/// The mathematical value of an [`Ack`].
pub struct AckModel {
    pub entry_id: Seq<char>,
    pub new_entry_hash: Seq<char>,
    pub status: Seq<char>,
    pub timestamp: i64,
    pub server_signer_id: Seq<char>,
    pub server_signature: Seq<char>,
}

impl View for Ack {
    type V = AckModel;

    open spec fn view(&self) -> AckModel {
        AckModel {
            entry_id: self.entry_id@,
            new_entry_hash: self.new_entry_hash@,
            status: self.status@,
            timestamp: self.timestamp,
            server_signer_id: self.server_signer_id@,
            server_signature: self.server_signature@,
        }
    }
}

/// Canonical-for-hash bytes of an entry: the CBOR tuple
/// `(version, device_id, timestamp, session_id, nonce, algo, key_id,
/// payload, previous_entry_hash)`, excluding `entry_hash` and `signature`.
pub open spec fn hash_input_bytes(e: EntryModel) -> Seq<u8> {
    cbor_array_header(9) + cbor_uint(e.version as u64) + cbor_text(e.device_id) + cbor_int(
        e.timestamp,
    ) + cbor_text(e.session_id) + cbor_uint(e.nonce) + cbor_text(e.algo) + cbor_opt_text(e.key_id)
        + cbor_text(e.payload) + cbor_opt_text(e.previous_entry_hash)
}

/// Canonical-for-sign bytes of an entry: as for hashing, but with the
/// declared `entry_hash` inserted after `version`; only `signature` is
/// excluded.
pub open spec fn sign_input_bytes(e: EntryModel) -> Seq<u8> {
    cbor_array_header(10) + cbor_uint(e.version as u64) + cbor_text(e.entry_hash) + cbor_text(
        e.device_id,
    ) + cbor_int(e.timestamp) + cbor_text(e.session_id) + cbor_uint(e.nonce) + cbor_text(e.algo)
        + cbor_opt_text(e.key_id) + cbor_text(e.payload) + cbor_opt_text(e.previous_entry_hash)
}

/// Canonical-for-ack-sign bytes: the CBOR tuple
/// `(entry_id, new_entry_hash, status, timestamp, server_signer_id)`,
/// excluding `server_signature`.
pub open spec fn ack_sign_input_bytes(a: AckModel) -> Seq<u8> {
    cbor_array_header(5) + cbor_text(a.entry_id) + cbor_text(a.new_entry_hash) + cbor_text(a.status)
        + cbor_int(a.timestamp) + cbor_text(a.server_signer_id)
}

/// The entry hash an honest device must declare: lowercase hex of the
/// SHA-256 digest of the canonical-for-hash bytes.
pub open spec fn entry_hash_hex(e: EntryModel) -> Seq<char> {
    hex_of(sha256_of(hash_input_bytes(e)))
}

/// Canonicalize a log entry for hashing (excludes `entry_hash` and
/// `signature`).
pub fn cbor_for_hash(e: &LogEntry) -> (r: Vec<u8>)
    ensures
        r@ == hash_input_bytes(e@),
{
    let mut out: Vec<u8> = Vec::new();
    push_array_header(&mut out, 9);
    push_uint(&mut out, e.version as u64);
    push_text(&mut out, e.device_id.as_str());
    push_int(&mut out, e.timestamp);
    push_text(&mut out, e.session_id.as_str());
    push_uint(&mut out, e.nonce);
    push_text(&mut out, e.algo.as_str());
    push_opt_text(&mut out, &e.key_id);
    push_text(&mut out, e.payload.as_str());
    push_opt_text(&mut out, &e.previous_entry_hash);
    out
}

/// Canonicalize a log entry for signing (includes the declared
/// `entry_hash`, excludes `signature`).
pub fn cbor_for_sign(e: &LogEntry) -> (r: Vec<u8>)
    ensures
        r@ == sign_input_bytes(e@),
{
    let mut out: Vec<u8> = Vec::new();
    push_array_header(&mut out, 10);
    push_uint(&mut out, e.version as u64);
    push_text(&mut out, e.entry_hash.as_str());
    push_text(&mut out, e.device_id.as_str());
    push_int(&mut out, e.timestamp);
    push_text(&mut out, e.session_id.as_str());
    push_uint(&mut out, e.nonce);
    push_text(&mut out, e.algo.as_str());
    push_opt_text(&mut out, &e.key_id);
    push_text(&mut out, e.payload.as_str());
    push_opt_text(&mut out, &e.previous_entry_hash);
    out
}

/// Canonicalize an acknowledgement for signing (excludes
/// `server_signature`).
pub fn cbor_for_ack_sign(a: &Ack) -> (r: Vec<u8>)
    ensures
        r@ == ack_sign_input_bytes(a@),
{
    let mut out: Vec<u8> = Vec::new();
    push_array_header(&mut out, 5);
    push_text(&mut out, a.entry_id.as_str());
    push_text(&mut out, a.new_entry_hash.as_str());
    push_text(&mut out, a.status.as_str());
    push_int(&mut out, a.timestamp);
    push_text(&mut out, a.server_signer_id.as_str());
    out
}

/// Hex-encoded SHA-256 of the canonical-for-hash bytes of an entry.
/// The result is a function of the entry's fields alone.
pub fn compute_entry_hash(e: &LogEntry) -> (r: String)
    ensures
        r@ == entry_hash_hex(e@),
{
    let bytes = cbor_for_hash(e);
    let digest = sha256(bytes.as_slice());
    hex_encode(digest.as_slice())
}

} // verus!
