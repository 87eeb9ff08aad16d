//! A single-use credential-issuance protocol for an account-based ledger.
//!
//! A buyer pays a fixed fee in the ledger's native value and receives exactly
//! one indivisible credential unit ("license") in a per-buyer holding record.
//! The protocol guarantees that payment and issuance happen atomically and at
//! most once per buyer, and that only the protocol's own derived authority can
//! authorize an issuance.
//!
//! The host ledger (account storage, signature verification, atomic commit of
//! a whole call) is outside this crate: each entry point here is a pure
//! function from the records a call touches to either a full outcome or an
//! error, and the host commits the outcome as one unit or discards it.

use vstd::prelude::*;

pub mod authority;
pub mod errors;
pub mod initializer;
pub mod issuer;
pub mod laws;
pub mod model;
pub mod records;

verus! {

/// Fee, in the smallest denomination of the ledger's native value, that a
/// buyer pays for one license.
pub const LICENSE_FEE: u64 = 1_000_000_000;

/// Number of credential units issued by one successful license purchase.
pub const ISSUE_AMOUNT: u64 = 1;

} // verus!
