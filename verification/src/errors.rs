//! Errors of the two entry points.
//!
//! A failed call has no effect: the host ledger discards every change of a
//! call that ends in an error, so each variant only names why the call was
//! rejected.

use vstd::prelude::*;

verus! {

/// Why an `initialize` call was rejected.
#[derive(Clone, Copy, PartialEq, Eq, Structural, Debug)]
pub enum InitError {
    /// The payer did not sign the call.
    MissingRequiredSignature,
    /// An asset record already exists at the given address: the protocol was
    /// already initialized for this asset identity.
    AlreadyInitialized,
    /// The payer cannot cover the storage cost of the new asset record.
    InsufficientFunds,
}

/// Why a `mint_license` call was rejected.
#[derive(Clone, Copy, PartialEq, Eq, Structural, Debug)]
pub enum MintError {
    /// The buyer did not sign the call.
    MissingRequiredSignature,
    /// The supplied authority reference, or the asset's bound minting
    /// authority, does not match the address re-derived from the fixed
    /// label. Issuance is never attempted.
    UnauthorizedAuthority,
    /// The fee transfer was rejected: the buyer cannot cover the fee, or the
    /// treasury cannot receive it.
    PaymentFailed,
    /// The buyer cannot cover the storage cost of a new holding record.
    RecordCreationFailed,
    /// The buyer's holding record already holds a license: issuance is at
    /// most once per buyer.
    AlreadyLicensed,
}

} // verus!
