//! The Ethereum-side chain identity: the wide integer a provider reports,
//! and its narrowing to the 64-bit identifier the signing client needs.

use vstd::prelude::*;

verus! {

/// A 256-bit chain identifier as reported by the Ethereum-side provider,
/// held as four 64-bit limbs, least significant first.
#[derive(Clone, Copy, Debug)]
pub struct WideChainId {
    pub limbs: [u64; 4],
}

/// The numeric value of a wide chain identifier.
pub open spec fn wide_value(w: WideChainId) -> int {
    w.limbs@[0] + w.limbs@[1] * 0x1_0000_0000_0000_0000 + w.limbs@[2] * 0x1_0000_0000_0000_0000
        * 0x1_0000_0000_0000_0000 + w.limbs@[3] * 0x1_0000_0000_0000_0000
        * 0x1_0000_0000_0000_0000 * 0x1_0000_0000_0000_0000
}

/// The narrowing a chain identifier undergoes: the exact value when it fits
/// in 64 bits, and nothing — never a truncation — when it does not.
pub open spec fn spec_downcast_chain_id(w: WideChainId) -> Option<u64> {
    if wide_value(w) <= u64::MAX {
        Some(wide_value(w) as u64)
    } else {
        None
    }
}

/// Narrow a wide chain identifier to 64 bits. Overflow yields `None`, which
/// every caller must treat as fatal: the identifier is never silently
/// wrapped or truncated.
pub fn downcast_chain_id(w: &WideChainId) -> (r: Option<u64>)
    ensures
        r == spec_downcast_chain_id(*w),
{
    if w.limbs[1] == 0 && w.limbs[2] == 0 && w.limbs[3] == 0 {
        Some(w.limbs[0])
    } else {
        None
    }
}

} // verus!
