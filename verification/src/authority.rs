//! Deterministic derivation of the protocol's authority address.
//!
//! The credential asset's minting authority is not a stored key: it is an
//! address derived by a pure fold over a fixed label. Any caller can recompute
//! it, nobody holds a secret for it, and the issuance entry point re-derives
//! it on every call instead of trusting a caller-supplied value.

use vstd::prelude::*;

verus! {

/// Starting value of the address fold.
pub const ADDRESS_FOLD_SEED: u64 = 0xcbf2_9ce4_8422_2325;

/// One step of the address fold: rotate the accumulator and mix in one byte.
pub open spec fn fold_step(h: u64, b: u8) -> u64 {
    ((h << 7) | (h >> 57)) ^ (b as u64)
}

/// Address derived from a label, as a fold over its bytes.
pub open spec fn spec_derive_address(label: Seq<u8>) -> u64
    decreases label.len(),
{
    if label.len() == 0 {
        ADDRESS_FOLD_SEED
    } else {
        fold_step(spec_derive_address(label.drop_last()), label.last())
    }
}

/// The fixed label "authority" from which the minting authority derives.
pub open spec fn spec_authority_label() -> Seq<u8> {
    seq![0x61u8, 0x75u8, 0x74u8, 0x68u8, 0x6fu8, 0x72u8, 0x69u8, 0x74u8, 0x79u8]
}

/// The one address allowed to authorize issuance, fixed for all time.
pub open spec fn spec_authority_address() -> u64 {
    spec_derive_address(spec_authority_label())
}

/// The bytes of the fixed label "authority".
pub fn authority_label() -> (r: Vec<u8>)
    ensures
        r@ == spec_authority_label(),
{
    let mut v: Vec<u8> = Vec::new();
    v.push(0x61);
    v.push(0x75);
    v.push(0x74);
    v.push(0x68);
    v.push(0x6f);
    v.push(0x72);
    v.push(0x69);
    v.push(0x74);
    v.push(0x79);
    proof {
        assert(v@ =~= spec_authority_label());
    }
    v
}

/// Fold a label's bytes into the address it derives to.
pub fn derive_address(label: &[u8]) -> (r: u64)
    ensures
        r == spec_derive_address(label@),
{
    let mut h: u64 = ADDRESS_FOLD_SEED;
    let mut i: usize = 0;
    while i < label.len()
        invariant
            i <= label@.len(),
            h == spec_derive_address(label@.take(i as int)),
        decreases label@.len() - i,
    {
        let b: u8 = label[i];
        proof {
            assert(label@.take(i as int + 1).drop_last() =~= label@.take(i as int));
            assert(label@.take(i as int + 1).last() == label@[i as int]);
        }
        h = ((h << 7) | (h >> 57)) ^ (b as u64);
        i = i + 1;
    }
    proof {
        assert(label@.take(label@.len() as int) =~= label@);
    }
    h
}

/// Re-derive the protocol's authority address from the fixed label.
pub fn derive_authority_address() -> (r: u64)
    ensures
        r == spec_authority_address(),
{
    let label = authority_label();
    derive_address(label.as_slice())
}

} // verus!
