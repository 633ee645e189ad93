//! The typed verification errors. All are terminal: the core never retries
//! and never mutates chain state on failure; transports translate an error
//! into the `status` field of an acknowledgement.

use vstd::prelude::*;

verus! {

/// Errors that can arise while processing a log entry.
#[derive(Debug, PartialEq, Eq)]
pub enum VerifyError {
    /// A field has the wrong shape or length, or base64 decoding failed.
    Malformed(String),
    /// The algorithm is not in the accepted set, or disagrees with the
    /// trusted key.
    UnsupportedAlgo(String),
    /// The trust resolver returned no key for the device.
    DeviceUnknown(String),
    /// The trust resolver flagged the key revoked.
    Revoked(String),
    /// The declared `entry_hash` disagrees with the computed hash.
    HashMismatch,
    /// Cryptographic signature verification failed.
    InvalidSignature,
    /// The chain link violates the per-device chain invariant.
    PreviousHashMismatch,
    /// The nonce failed the strict greater-than check.
    NonceNotMonotonic,
}

/// The mathematical value of a [`VerifyError`].
pub enum ErrModel {
    Malformed(Seq<char>),
    UnsupportedAlgo(Seq<char>),
    DeviceUnknown(Seq<char>),
    Revoked(Seq<char>),
    HashMismatch,
    InvalidSignature,
    PreviousHashMismatch,
    NonceNotMonotonic,
}

impl View for VerifyError {
    type V = ErrModel;

    open spec fn view(&self) -> ErrModel {
        match self {
            VerifyError::Malformed(s) => ErrModel::Malformed(s@),
            VerifyError::UnsupportedAlgo(s) => ErrModel::UnsupportedAlgo(s@),
            VerifyError::DeviceUnknown(s) => ErrModel::DeviceUnknown(s@),
            VerifyError::Revoked(s) => ErrModel::Revoked(s@),
            VerifyError::HashMismatch => ErrModel::HashMismatch,
            VerifyError::InvalidSignature => ErrModel::InvalidSignature,
            VerifyError::PreviousHashMismatch => ErrModel::PreviousHashMismatch,
            VerifyError::NonceNotMonotonic => ErrModel::NonceNotMonotonic,
        }
    }
}

} // verus!
