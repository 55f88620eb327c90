//! Small arithmetic helpers shared by the components: the saturating
//! multiplication that the scoring formulas specify, and the packed
//! integer key that the pair-keyed tables use.

use vstd::prelude::*;

verus! {

/// Packs a pair of addresses or keys into one map key; injective because
/// the low half is smaller than the shift.
pub open spec fn spec_pair_key(a: u64, b: u64) -> u128 {
    (a as int * 0x1_0000_0000_0000_0000 + b as int) as u128
}

/// Packs a pair of addresses or keys into one map key.
pub fn pair_key(a: u64, b: u64) -> (r: u128)
    ensures
        r == spec_pair_key(a, b),
{
    a as u128 * 0x1_0000_0000_0000_0000 + b as u128
}

/// `a * b`, saturating at `u64::MAX`.
pub open spec fn spec_sat_mul_u64(a: u64, b: u64) -> u64 {
    if a * b > u64::MAX {
        u64::MAX
    } else {
        (a * b) as u64
    }
}

/// Saturating multiplication on `u64`.
pub fn sat_mul_u64(a: u64, b: u64) -> (r: u64)
    ensures
        r == spec_sat_mul_u64(a, b),
{
    match a.checked_mul(b) {
        Some(v) => v,
        None => u64::MAX,
    }
}

} // verus!
