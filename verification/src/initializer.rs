//! One-time protocol setup.
//!
//! `initialize` creates the credential-asset record and binds both its
//! minting and freeze authority to the address derived from the fixed label.
//! The create-if-absent semantics of the host ledger make a second call for
//! the same asset identity fail with a collision error instead of silently
//! succeeding.

use vstd::prelude::*;
use crate::authority::spec_authority_address;
use crate::errors::InitError;
use crate::records::{AssetRecord, NativeAccount};

verus! {

/// Everything an `initialize` call touches: a snapshot of the payer's value
/// record and the host's findings about the asset address being created.
#[derive(Clone, Copy, PartialEq, Eq, Structural, Debug)]
pub struct Initialize {
    /// The payer covering the storage cost of the new asset record.
    pub payer: NativeAccount,
    /// Whether the payer signed the call; the host verifies the signature.
    pub payer_signed: bool,
    /// Address at which the asset record is to be created: the new asset's
    /// identity.
    pub asset_address: u64,
    /// Whether a record already exists at that address.
    pub asset_exists: bool,
    /// Storage cost of the new asset record, charged to the payer.
    pub storage_cost: u64,
}

/// What a successful `initialize` commits: the new asset record and the
/// payer's balance after paying its storage cost.
#[derive(Clone, Copy, PartialEq, Eq, Structural, Debug)]
pub struct InitOutcome {
    pub asset: AssetRecord,
    pub payer_balance: u64,
}

/// Whether an `initialize` call succeeds.
pub open spec fn init_accepted(ctx: Initialize) -> bool {
    &&& ctx.payer_signed
    &&& !ctx.asset_exists
    &&& ctx.payer.balance >= ctx.storage_cost
}

/// The exact outcome of `initialize` on a given call.
pub open spec fn initialize_spec(ctx: Initialize) -> Result<InitOutcome, InitError> {
    if !ctx.payer_signed {
        Err(InitError::MissingRequiredSignature)
    } else if ctx.asset_exists {
        Err(InitError::AlreadyInitialized)
    } else if ctx.payer.balance < ctx.storage_cost {
        Err(InitError::InsufficientFunds)
    } else {
        Ok(InitOutcome {
            asset: AssetRecord {
                address: ctx.asset_address,
                decimals: 0,
                mint_authority: spec_authority_address(),
                freeze_authority: spec_authority_address(),
            },
            payer_balance: (ctx.payer.balance - ctx.storage_cost) as u64,
        })
    }
}

/// Create the credential asset, indivisible and bound to the derived
/// authority, exactly once per asset identity.
pub fn initialize(ctx: &Initialize) -> (r: Result<InitOutcome, InitError>)
    ensures
        r == initialize_spec(*ctx),
        r is Ok <==> init_accepted(*ctx),
        (r matches Ok(o) ==> {
            &&& o.asset.address == ctx.asset_address
            &&& o.asset.decimals == 0
            &&& o.asset.mint_authority == spec_authority_address()
            &&& o.asset.freeze_authority == spec_authority_address()
            &&& o.payer_balance + ctx.storage_cost == ctx.payer.balance
        }),
        !ctx.payer_signed ==> r == Err::<InitOutcome, InitError>(
            InitError::MissingRequiredSignature,
        ),
        ctx.payer_signed && ctx.asset_exists ==> r == Err::<InitOutcome, InitError>(
            InitError::AlreadyInitialized,
        ),
        ctx.payer_signed && !ctx.asset_exists && ctx.payer.balance < ctx.storage_cost
            ==> r == Err::<InitOutcome, InitError>(InitError::InsufficientFunds),
{
    if !ctx.payer_signed {
        return Err(InitError::MissingRequiredSignature);
    }
    if ctx.asset_exists {
        return Err(InitError::AlreadyInitialized);
    }
    if ctx.payer.balance < ctx.storage_cost {
        return Err(InitError::InsufficientFunds);
    }
    let authority = crate::authority::derive_authority_address();
    Ok(InitOutcome {
        asset: AssetRecord {
            address: ctx.asset_address,
            decimals: 0,
            mint_authority: authority,
            freeze_authority: authority,
        },
        payer_balance: ctx.payer.balance - ctx.storage_cost,
    })
}

} // verus!
