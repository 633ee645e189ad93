//! Verification engine for tamper-evident device telemetry.
//!
//! Devices emit signed log entries that form a per-device hash chain; the
//! verifier authenticates each entry, enforces chain and nonce ordering
//! rules, and returns a signed acknowledgement bound to the accepted entry.

use vstd::prelude::*;

pub mod codec;
pub mod crypto;
pub mod errors;
pub mod laws;
pub mod traits;
pub mod types;
pub mod verify;

pub use errors::VerifyError;
pub use traits::{AckSigner, ChainStore, DeviceTrust};
pub use types::{cbor_for_ack_sign, Ack, LogEntry, VerifyingKey};
pub use verify::{Ed25519AckSigner, InMemoryChainStore, StaticTrust, Verifier};

verus! {

/// Library version string.
pub fn version() -> (r: &'static str)
    ensures
        r@ == "taric-core 0.1.0"@,
{
    "taric-core 0.1.0"
}

} // verus!
