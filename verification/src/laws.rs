//! The library's global guarantees, stated and proved over the verdict
//! model that `process_entry` is specified against.

use vstd::prelude::*;

use crate::errors::ErrModel;
use crate::types::{entry_hash_hex, hash_input_bytes, EntryModel, KeyModel};
use crate::verify::{chain_verdict, passes_static_checks, verdict};

verus! {

/// When every check before the chain rules passes, the verdict is exactly
/// the chain-rule verdict.
pub proof fn lemma_verdict_reduces_to_chain(
    key: Option<KeyModel>,
    revoked: bool,
    chain: Map<Seq<char>, (Seq<char>, u64)>,
    e: EntryModel,
)
    requires
        passes_static_checks(key, revoked, e),
    ensures
        verdict(key, revoked, chain, e) == chain_verdict(chain, e),
{
}

/// Replay is impossible once committed: after an entry is accepted and the
/// chain state carries its hash and nonce, re-submitting the very same
/// entry under the same trust answers fails with `PreviousHashMismatch`
/// or `NonceNotMonotonic`.
pub proof fn lemma_replay_rejected(
    key: Option<KeyModel>,
    revoked: bool,
    chain: Map<Seq<char>, (Seq<char>, u64)>,
    e: EntryModel,
)
    requires
        verdict(key, revoked, chain, e) is None,
    ensures
        ({
            let committed = chain.insert(e.device_id, (e.entry_hash, e.nonce));
            verdict(key, revoked, committed, e) == Some(ErrModel::PreviousHashMismatch)
                || verdict(key, revoked, committed, e) == Some(ErrModel::NonceNotMonotonic)
        }),
{
}

/// Any entry whose declared hash is not the computed hash fails with
/// `HashMismatch`, whatever the trust answers and chain state: the hash
/// check precedes trust, signature and chain checks.
pub proof fn lemma_hash_mismatch_rejected(
    key: Option<KeyModel>,
    revoked: bool,
    chain: Map<Seq<char>, (Seq<char>, u64)>,
    e: EntryModel,
)
    requires
        e.entry_hash != entry_hash_hex(e),
    ensures
        verdict(key, revoked, chain, e) == Some(ErrModel::HashMismatch),
{
}

/// Altering the declared hash of a hash-valid entry to any other value
/// yields `HashMismatch`: the computed hash does not depend on the
/// declared one, so the altered entry can never pass the hash check.
pub proof fn lemma_altered_hash_rejected(
    key: Option<KeyModel>,
    revoked: bool,
    chain: Map<Seq<char>, (Seq<char>, u64)>,
    e: EntryModel,
    altered: Seq<char>,
)
    requires
        e.entry_hash == entry_hash_hex(e),
        altered != e.entry_hash,
    ensures
        verdict(key, revoked, chain, EntryModel { entry_hash: altered, ..e }) == Some(
            ErrModel::HashMismatch,
        ),
{
    let e2 = EntryModel { entry_hash: altered, ..e };
    assert(hash_input_bytes(e2) == hash_input_bytes(e));
}

/// The chain rules against an accepted state `(H, N)`: a valid-signed
/// entry linking to `H` with a nonce above `N` is accepted; a nonce at or
/// below `N` behind a correct link fails `NonceNotMonotonic`; any link
/// other than `H` (including none) fails `PreviousHashMismatch`.
pub proof fn lemma_chain_rules(
    key: Option<KeyModel>,
    revoked: bool,
    chain: Map<Seq<char>, (Seq<char>, u64)>,
    e: EntryModel,
)
    requires
        passes_static_checks(key, revoked, e),
        chain.contains_key(e.device_id),
    ensures
        e.previous_entry_hash == Some(chain[e.device_id].0) && e.nonce > chain[e.device_id].1
            ==> verdict(key, revoked, chain, e) is None,
        e.previous_entry_hash == Some(chain[e.device_id].0) && e.nonce <= chain[e.device_id].1
            ==> verdict(key, revoked, chain, e) == Some(ErrModel::NonceNotMonotonic),
        e.previous_entry_hash != Some(chain[e.device_id].0) ==> verdict(key, revoked, chain, e)
            == Some(ErrModel::PreviousHashMismatch),
{
}

/// A device's first entry: with no stored state, a valid-signed entry is
/// accepted exactly when it declares no previous hash.
pub proof fn lemma_first_entry(
    key: Option<KeyModel>,
    revoked: bool,
    chain: Map<Seq<char>, (Seq<char>, u64)>,
    e: EntryModel,
)
    requires
        passes_static_checks(key, revoked, e),
        !chain.contains_key(e.device_id),
    ensures
        e.previous_entry_hash is None ==> verdict(key, revoked, chain, e) is None,
        e.previous_entry_hash is Some ==> verdict(key, revoked, chain, e) == Some(
            ErrModel::PreviousHashMismatch,
        ),
{
}

/// The session is informational only: the chain-rule verdict of an entry
/// is unchanged under any other `session_id`. In particular a new
/// session's first entry must still link to the device's prior entry hash
/// and strictly increase the device's nonce.
pub proof fn lemma_session_does_not_reset_chain(
    chain: Map<Seq<char>, (Seq<char>, u64)>,
    e: EntryModel,
    other_session: Seq<char>,
)
    ensures
        chain_verdict(chain, EntryModel { session_id: other_session, ..e }) == chain_verdict(
            chain,
            e,
        ),
{
}

} // verus!
