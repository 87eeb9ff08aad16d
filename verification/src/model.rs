//! A ledger-level model of the protocol.
//!
//! The host ledger serializes conflicting writes, so any set of calls commits
//! in some order: the model is a state machine whose state is the shared
//! ledger and whose steps are whole calls. A step builds the call's context
//! from the state, applies the entry point's specification, and commits the
//! outcome, or leaves the state untouched when the call fails — the host's
//! all-or-nothing guarantee. The sequence-level laws of the protocol are
//! proved over this machine.

use vstd::prelude::*;
use crate::initializer::{initialize_spec, Initialize};
use crate::issuer::{mint_license_spec, MintLicense};
use crate::records::{AssetRecord, HoldingRecord, NativeAccount};
use crate::ISSUE_AMOUNT;

verus! {

/// The shared ledger state the protocol touches: the credential asset (once
/// created), every native balance by address, and every buyer's holding
/// record by owner address.
pub struct ProtocolState {
    pub asset: Option<AssetRecord>,
    pub balances: Map<u64, u64>,
    pub holdings: Map<u64, HoldingRecord>,
}

/// An `initialize` call as submitted: which accounts it names and whether the
/// payer signed.
pub struct InitCall {
    pub payer: u64,
    pub payer_signed: bool,
    pub asset_address: u64,
    pub storage_cost: u64,
}

/// A `mint_license` call as submitted: which accounts it names, the authority
/// reference the caller chose, and whether the buyer signed.
pub struct MintCall {
    pub buyer: u64,
    pub buyer_signed: bool,
    pub treasury: u64,
    pub supplied_authority: u64,
    pub record_storage_cost: u64,
}

/// A call against the ledger, in the order the host committed it.
pub enum Call {
    Init(InitCall),
    Mint(MintCall),
}

/// A ledger with no asset record and no holding records yet, over any initial
/// native balances.
pub open spec fn genesis(balances: Map<u64, u64>) -> ProtocolState {
    ProtocolState { asset: None, balances, holdings: Map::empty() }
}

/// The holding records are well formed: each is keyed by its owner and holds
/// at most one unit.
pub open spec fn holdings_wf(s: ProtocolState) -> bool {
    forall|b: u64| #[trigger] s.holdings.contains_key(b) ==> {
        &&& s.holdings[b].owner == b
        &&& s.holdings[b].balance <= ISSUE_AMOUNT
    }
}

/// Whether the host can dispatch an `initialize` call: the payer's value
/// record exists.
pub open spec fn init_call_admitted(s: ProtocolState, c: InitCall) -> bool {
    s.balances.contains_key(c.payer)
}

/// The context an admitted `initialize` call sees.
pub open spec fn init_ctx_of(s: ProtocolState, c: InitCall) -> Initialize {
    Initialize {
        payer: NativeAccount { address: c.payer, balance: s.balances[c.payer] },
        payer_signed: c.payer_signed,
        asset_address: c.asset_address,
        asset_exists: s.asset is Some,
        storage_cost: c.storage_cost,
    }
}

/// One committed `initialize` call: on success the asset record exists and
/// the payer paid its storage cost; on any failure nothing changed.
pub open spec fn step_init(s: ProtocolState, c: InitCall) -> ProtocolState {
    if !init_call_admitted(s, c) {
        s
    } else {
        match initialize_spec(init_ctx_of(s, c)) {
            Ok(o) => ProtocolState {
                asset: Some(o.asset),
                balances: s.balances.insert(c.payer, o.payer_balance),
                holdings: s.holdings,
            },
            Err(_) => s,
        }
    }
}

/// Whether the host can dispatch a `mint_license` call: the asset record
/// exists, both value records exist, and they are two distinct records.
pub open spec fn mint_call_admitted(s: ProtocolState, c: MintCall) -> bool {
    &&& s.asset is Some
    &&& s.balances.contains_key(c.buyer)
    &&& s.balances.contains_key(c.treasury)
    &&& c.buyer != c.treasury
}

/// The context an admitted `mint_license` call sees: the buyer's holding
/// record is looked up at the buyer's key, so a racing creation is seen by
/// whichever call commits second.
pub open spec fn mint_ctx_of(s: ProtocolState, c: MintCall) -> MintLicense {
    MintLicense {
        buyer: NativeAccount { address: c.buyer, balance: s.balances[c.buyer] },
        buyer_signed: c.buyer_signed,
        treasury: NativeAccount { address: c.treasury, balance: s.balances[c.treasury] },
        asset: s.asset->0,
        supplied_authority: c.supplied_authority,
        buyer_record: if s.holdings.contains_key(c.buyer) {
            Some(s.holdings[c.buyer])
        } else {
            None
        },
        record_storage_cost: c.record_storage_cost,
    }
}

/// One committed `mint_license` call: on success the fee moved and the
/// buyer's record holds one more unit; on any failure nothing changed.
pub open spec fn step_mint(s: ProtocolState, c: MintCall) -> ProtocolState {
    if !mint_call_admitted(s, c) {
        s
    } else {
        match mint_license_spec(mint_ctx_of(s, c)) {
            Ok(o) => ProtocolState {
                asset: s.asset,
                balances: s.balances.insert(c.buyer, o.buyer_balance).insert(
                    c.treasury,
                    o.treasury_balance,
                ),
                holdings: s.holdings.insert(c.buyer, o.record),
            },
            Err(_) => s,
        }
    }
}

/// One committed call of either kind.
pub open spec fn step(s: ProtocolState, c: Call) -> ProtocolState {
    match c {
        Call::Init(ic) => step_init(s, ic),
        Call::Mint(mc) => step_mint(s, mc),
    }
}

/// The ledger after a sequence of calls, committed in order.
pub open spec fn run(s: ProtocolState, cs: Seq<Call>) -> ProtocolState
    decreases cs.len(),
{
    if cs.len() == 0 {
        s
    } else {
        run(step(s, cs.first()), cs.drop_first())
    }
}

/// One step keeps the holding records well formed: a call either changes
/// nothing or writes the calling buyer's record, and a written record is
/// keyed by its owner and holds exactly one unit.
pub proof fn lemma_step_preserves_holdings_wf(s: ProtocolState, c: Call)
    requires
        holdings_wf(s),
    ensures
        holdings_wf(step(s, c)),
{
}

/// Any sequence of calls keeps the holding records well formed.
pub proof fn lemma_run_preserves_holdings_wf(s: ProtocolState, cs: Seq<Call>)
    requires
        holdings_wf(s),
    ensures
        holdings_wf(run(s, cs)),
    decreases cs.len(),
{
    if cs.len() > 0 {
        lemma_step_preserves_holdings_wf(s, cs.first());
        lemma_run_preserves_holdings_wf(step(s, cs.first()), cs.drop_first());
    }
}

} // verus!
