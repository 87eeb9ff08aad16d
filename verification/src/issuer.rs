//! The per-buyer issuance entry point.
//!
//! `mint_license` validates the caller, moves the fixed fee from buyer to
//! treasury, binds the buyer's holding record (creating it exactly once), and
//! credits exactly one credential unit to it, authorized by re-deriving the
//! protocol authority from the fixed label. The call's outcome is a pure
//! value; the host commits it atomically or, on an error, commits nothing.
//!
//! The treasury reference is deliberately accepted as the caller supplies it:
//! the protocol fixes the fee and the pairing of payment with issuance, not
//! the fee's destination. A deployment that wants a fixed treasury must pin
//! its address in the calling shell.

use vstd::prelude::*;
use crate::authority::spec_authority_address;
use crate::errors::MintError;
use crate::records::{AssetRecord, HoldingRecord, NativeAccount};
use crate::{ISSUE_AMOUNT, LICENSE_FEE};

verus! {

/// Everything a `mint_license` call touches: snapshots of the buyer's and
/// treasury's value records, the asset record, the caller-supplied authority
/// reference, and the buyer's holding record if one exists.
#[derive(Clone, Copy, PartialEq, Eq, Structural, Debug)]
pub struct MintLicense {
    /// The buyer paying the fee and receiving the license.
    pub buyer: NativeAccount,
    /// Whether the buyer signed the call; the host verifies the signature.
    pub buyer_signed: bool,
    /// The value record receiving the fee.
    pub treasury: NativeAccount,
    /// The credential asset created by `initialize`.
    pub asset: AssetRecord,
    /// The authority address the caller supplied; never trusted, always
    /// compared against a fresh derivation.
    pub supplied_authority: u64,
    /// The buyer's holding record for the asset, if the host found one at the
    /// (asset, buyer) key.
    pub buyer_record: Option<HoldingRecord>,
    /// Storage cost of a new holding record, charged to the buyer when the
    /// record does not exist yet.
    pub record_storage_cost: u64,
}

/// What a successful `mint_license` commits: the two new balances, the new or
/// updated holding record, and whether the record was created by this call.
#[derive(Clone, Copy, PartialEq, Eq, Structural, Debug)]
pub struct MintOutcome {
    pub buyer_balance: u64,
    pub treasury_balance: u64,
    pub record: HoldingRecord,
    pub record_created: bool,
}

/// What the host guarantees about the records it hands in: the buyer and the
/// treasury are two distinct records, and a holding record found at the
/// (asset, buyer) key is keyed by exactly that asset and that buyer.
pub open spec fn mint_context_wf(ctx: MintLicense) -> bool {
    &&& ctx.buyer.address != ctx.treasury.address
    &&& match ctx.buyer_record {
        Some(rec) => rec.asset == ctx.asset.address && rec.owner == ctx.buyer.address,
        None => true,
    }
}

/// Both the supplied authority reference and the asset's bound minting
/// authority match a fresh derivation from the fixed label.
pub open spec fn authority_ok(ctx: MintLicense) -> bool {
    &&& ctx.supplied_authority == spec_authority_address()
    &&& ctx.asset.mint_authority == spec_authority_address()
}

/// The fee transfer can happen: the buyer covers the fee and the treasury can
/// receive it.
pub open spec fn payment_ok(ctx: MintLicense) -> bool {
    &&& ctx.buyer.balance >= LICENSE_FEE
    &&& ctx.treasury.balance + LICENSE_FEE <= u64::MAX
}

/// Units already held by the buyer: the existing record's balance, or zero
/// when no record exists yet.
pub open spec fn existing_balance(ctx: MintLicense) -> u64 {
    match ctx.buyer_record {
        Some(rec) => rec.balance,
        None => 0,
    }
}

/// Storage cost this call charges: a new record's cost, or nothing when the
/// buyer's record already exists.
pub open spec fn creation_cost(ctx: MintLicense) -> u64 {
    match ctx.buyer_record {
        Some(_) => 0,
        None => ctx.record_storage_cost,
    }
}

/// After paying the fee the buyer can still cover the storage cost of a new
/// holding record, when one has to be created.
pub open spec fn record_funding_ok(ctx: MintLicense) -> bool {
    ctx.buyer.balance - LICENSE_FEE >= creation_cost(ctx)
}

/// Whether a `mint_license` call succeeds.
pub open spec fn mint_accepted(ctx: MintLicense) -> bool {
    &&& ctx.buyer_signed
    &&& authority_ok(ctx)
    &&& payment_ok(ctx)
    &&& record_funding_ok(ctx)
    &&& existing_balance(ctx) == 0
}

/// The holding record after issuance: the existing record, or a fresh one
/// keyed by (asset, buyer), credited with exactly one unit.
pub open spec fn issued_record(ctx: MintLicense) -> HoldingRecord {
    match ctx.buyer_record {
        Some(rec) => HoldingRecord {
            asset: rec.asset,
            owner: rec.owner,
            balance: (rec.balance + ISSUE_AMOUNT) as u64,
        },
        None => HoldingRecord {
            asset: ctx.asset.address,
            owner: ctx.buyer.address,
            balance: ISSUE_AMOUNT,
        },
    }
}

/// The exact outcome of `mint_license` on a given call.
pub open spec fn mint_license_spec(ctx: MintLicense) -> Result<MintOutcome, MintError> {
    if !ctx.buyer_signed {
        Err(MintError::MissingRequiredSignature)
    } else if !authority_ok(ctx) {
        Err(MintError::UnauthorizedAuthority)
    } else if !payment_ok(ctx) {
        Err(MintError::PaymentFailed)
    } else if !record_funding_ok(ctx) {
        Err(MintError::RecordCreationFailed)
    } else if existing_balance(ctx) != 0 {
        Err(MintError::AlreadyLicensed)
    } else {
        Ok(MintOutcome {
            buyer_balance: (ctx.buyer.balance - LICENSE_FEE - creation_cost(ctx)) as u64,
            treasury_balance: (ctx.treasury.balance + LICENSE_FEE) as u64,
            record: issued_record(ctx),
            record_created: ctx.buyer_record is None,
        })
    }
}

/// Collect the fee, bind the buyer's holding record, and issue exactly one
/// credential unit, in that order, all or nothing.
pub fn mint_license(ctx: &MintLicense) -> (r: Result<MintOutcome, MintError>)
    requires
        mint_context_wf(*ctx),
    ensures
        r == mint_license_spec(*ctx),
        r is Ok <==> mint_accepted(*ctx),
        (r matches Ok(o) ==> {
            &&& o.treasury_balance == ctx.treasury.balance + LICENSE_FEE
            &&& o.buyer_balance + LICENSE_FEE + creation_cost(*ctx) == ctx.buyer.balance
            &&& o.record.balance == existing_balance(*ctx) + ISSUE_AMOUNT
            &&& o.record.asset == ctx.asset.address
            &&& o.record.owner == ctx.buyer.address
            &&& (o.record_created <==> ctx.buyer_record is None)
        }),
        !ctx.buyer_signed ==> r == Err::<MintOutcome, MintError>(
            MintError::MissingRequiredSignature,
        ),
        ctx.buyer_signed && !authority_ok(*ctx) ==> r == Err::<MintOutcome, MintError>(
            MintError::UnauthorizedAuthority,
        ),
        ctx.buyer_signed && authority_ok(*ctx) && !payment_ok(*ctx) ==> r == Err::<
            MintOutcome,
            MintError,
        >(MintError::PaymentFailed),
        ctx.buyer_signed && authority_ok(*ctx) && payment_ok(*ctx) && !record_funding_ok(*ctx)
            ==> r == Err::<MintOutcome, MintError>(MintError::RecordCreationFailed),
        ctx.buyer_signed && authority_ok(*ctx) && payment_ok(*ctx) && record_funding_ok(*ctx)
            && existing_balance(*ctx) != 0 ==> r == Err::<MintOutcome, MintError>(
            MintError::AlreadyLicensed,
        ),
{
    if !ctx.buyer_signed {
        return Err(MintError::MissingRequiredSignature);
    }
    let authority = crate::authority::derive_authority_address();
    if ctx.supplied_authority != authority || ctx.asset.mint_authority != authority {
        return Err(MintError::UnauthorizedAuthority);
    }
    if ctx.buyer.balance < LICENSE_FEE {
        return Err(MintError::PaymentFailed);
    }
    if ctx.treasury.balance > u64::MAX - LICENSE_FEE {
        return Err(MintError::PaymentFailed);
    }
    let buyer_after_fee = ctx.buyer.balance - LICENSE_FEE;
    let treasury_balance = ctx.treasury.balance + LICENSE_FEE;
    match ctx.buyer_record {
        None => {
            if buyer_after_fee < ctx.record_storage_cost {
                return Err(MintError::RecordCreationFailed);
            }
            let record = HoldingRecord {
                asset: ctx.asset.address,
                owner: ctx.buyer.address,
                balance: ISSUE_AMOUNT,
            };
            Ok(MintOutcome {
                buyer_balance: buyer_after_fee - ctx.record_storage_cost,
                treasury_balance,
                record,
                record_created: true,
            })
        },
        Some(rec) => {
            if rec.balance != 0 {
                return Err(MintError::AlreadyLicensed);
            }
            let record = HoldingRecord {
                asset: rec.asset,
                owner: rec.owner,
                balance: rec.balance + ISSUE_AMOUNT,
            };
            Ok(MintOutcome {
                buyer_balance: buyer_after_fee,
                treasury_balance,
                record,
                record_created: false,
            })
        },
    }
}

} // verus!
