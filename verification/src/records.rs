//! The ledger records the protocol reads and writes.
//!
//! Each record is modelled by the plain values the protocol's logic depends
//! on: an address identifying the record and the balances or bindings stored
//! in it. The host ledger owns the real records; a call hands the protocol a
//! snapshot of the records it names and commits the returned outcome
//! atomically.

use vstd::prelude::*;

verus! {

/// A record holding native value: an address and its balance in the smallest
/// denomination.
#[derive(Clone, Copy, PartialEq, Eq, Structural, Debug)]
pub struct NativeAccount {
    pub address: u64,
    pub balance: u64,
}

/// The credential asset: the record created once by `initialize`, holding the
/// asset's divisibility and its authority bindings.
#[derive(Clone, Copy, PartialEq, Eq, Structural, Debug)]
pub struct AssetRecord {
    /// Address of the asset record itself: the asset's identity.
    pub address: u64,
    /// Number of decimal places of one unit; the credential is indivisible.
    pub decimals: u8,
    /// The only address allowed to authorize issuance of new units.
    pub mint_authority: u64,
    /// The only address allowed to freeze holding records.
    pub freeze_authority: u64,
}

/// A buyer's holding record for the credential asset, keyed by
/// (asset, owner): at most one exists per buyer.
#[derive(Clone, Copy, PartialEq, Eq, Structural, Debug)]
pub struct HoldingRecord {
    /// Identity of the asset this record holds units of.
    pub asset: u64,
    /// Address of the buyer who owns the record.
    pub owner: u64,
    /// Number of credential units held.
    pub balance: u64,
}

} // verus!
