//! The protocol's laws, proved over the ledger model.
//!
//! Each law quantifies over states and calls; none is about one chosen
//! value. They are stated over `model::step` and `model::run`, whose success
//! cases are exactly the entry points' specifications, so everything here
//! carries over to the verified executable entry points.

use vstd::prelude::*;
use crate::authority::spec_authority_address;
use crate::errors::{InitError, MintError};
use crate::initializer::{initialize_spec, InitOutcome};
use crate::issuer::{existing_balance, mint_license_spec, MintOutcome};
use crate::model::{
    genesis, holdings_wf, init_call_admitted, init_ctx_of, lemma_run_preserves_holdings_wf,
    lemma_step_preserves_holdings_wf, mint_call_admitted, mint_ctx_of, run, step_init, step_mint,
    Call, InitCall, MintCall, ProtocolState,
};
use crate::{ISSUE_AMOUNT, LICENSE_FEE};

verus! {

/// Single issuance per buyer: starting from a ledger with no asset and no
/// holding records, after any sequence of calls every buyer's holding record
/// holds at most one unit, however many `mint_license` calls were submitted
/// for that buyer.
pub proof fn lemma_single_issuance_per_buyer(
    balances: Map<u64, u64>,
    cs: Seq<Call>,
    buyer: u64,
)
    ensures
        run(genesis(balances), cs).holdings.contains_key(buyer) ==> run(
            genesis(balances),
            cs,
        ).holdings[buyer].balance <= ISSUE_AMOUNT,
{
    lemma_run_preserves_holdings_wf(genesis(balances), cs);
}

/// Atomic payment–issuance pairing: when a `mint_license` call succeeds, the
/// treasury's balance rises by exactly the fee and the buyer's holding
/// balance by exactly one unit, in the same step; when it fails, the ledger
/// is exactly what it was — never one effect without the other.
pub proof fn lemma_atomic_payment_issuance(s: ProtocolState, c: MintCall)
    ensures
        mint_call_admitted(s, c) && mint_license_spec(mint_ctx_of(s, c)) is Ok ==> {
            let next = step_mint(s, c);
            &&& next.balances[c.treasury] == s.balances[c.treasury] + LICENSE_FEE
            &&& next.holdings.contains_key(c.buyer)
            &&& next.holdings[c.buyer].balance == existing_balance(mint_ctx_of(s, c))
                + ISSUE_AMOUNT
        },
        !(mint_call_admitted(s, c) && mint_license_spec(mint_ctx_of(s, c)) is Ok) ==> step_mint(
            s,
            c,
        ) == s,
{
}

/// A `mint_license` call touches nothing but the buyer's balance, the
/// treasury's balance, and the buyer's holding record; the asset record and
/// every other account are exactly what they were.
pub proof fn lemma_mint_touches_only_named_records(s: ProtocolState, c: MintCall)
    ensures
        step_mint(s, c).asset == s.asset,
        forall|a: u64|
            a != c.buyer && a != c.treasury ==> step_mint(s, c).balances.contains_key(a)
                == s.balances.contains_key(a) && (s.balances.contains_key(a) ==> step_mint(
                s,
                c,
            ).balances[a] == s.balances[a]),
        forall|b: u64|
            b != c.buyer ==> step_mint(s, c).holdings.contains_key(b) == s.holdings.contains_key(b)
                && (s.holdings.contains_key(b) ==> step_mint(s, c).holdings[b] == s.holdings[b]),
{
}

/// Authority exclusivity: an issuance attempt whose supplied authority
/// reference does not re-derive from the fixed label changes no record, and
/// when it reaches the authority check it is rejected as
/// `UnauthorizedAuthority` — issuance is never attempted.
pub proof fn lemma_authority_exclusivity(s: ProtocolState, c: MintCall)
    requires
        c.supplied_authority != spec_authority_address(),
    ensures
        step_mint(s, c) == s,
        mint_call_admitted(s, c) && c.buyer_signed ==> mint_license_spec(mint_ctx_of(s, c))
            == Err::<MintOutcome, MintError>(MintError::UnauthorizedAuthority),
{
}

/// Initialization exactly once: once an asset record exists, a second
/// `initialize` call changes nothing — the original authority binding
/// stands — and when it reaches the collision check it is rejected as
/// `AlreadyInitialized`.
pub proof fn lemma_initialize_exactly_once(s: ProtocolState, c: InitCall)
    requires
        s.asset is Some,
    ensures
        step_init(s, c) == s,
        init_call_admitted(s, c) && c.payer_signed ==> initialize_spec(init_ctx_of(s, c))
            == Err::<InitOutcome, InitError>(InitError::AlreadyInitialized),
{
}

/// Concurrent first-time buyers: the host serializes two racing calls for
/// the same new buyer into some order; at most one of them commits anything,
/// and if the buyer ends up with a holding record it is the one record keyed
/// by the buyer, holding exactly one unit.
pub proof fn lemma_concurrent_first_time_buyers(s: ProtocolState, c1: MintCall, c2: MintCall)
    requires
        holdings_wf(s),
        !s.holdings.contains_key(c1.buyer),
        c2.buyer == c1.buyer,
    ensures
        ({
            let s1 = step_mint(s, c1);
            let s2 = step_mint(s1, c2);
            &&& s1.holdings.contains_key(c1.buyer) ==> s2 == s1
            &&& s2.holdings.contains_key(c1.buyer) ==> {
                &&& s2.holdings[c1.buyer].balance == ISSUE_AMOUNT
                &&& s2.holdings[c1.buyer].owner == c1.buyer
            }
        }),
{
    lemma_step_preserves_holdings_wf(s, Call::Mint(c1));
    lemma_step_preserves_holdings_wf(step_mint(s, c1), Call::Mint(c2));
}

} // verus!
