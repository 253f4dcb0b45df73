//! Saturating unsigned 64-bit counter arithmetic shared by the reaction
//! lifecycle: bound checks before every increment or decrement, so that no
//! wraparound is ever possible.
use vstd::prelude::*;

verus! {

/// True when the counter can grow without saturating.
pub fn counter_can_increment(value: u64) -> (r: bool)
    ensures
        r == (value < u64::MAX),
{
    value < u64::MAX
}

/// True when the counter can shrink without underflowing.
pub fn counter_can_decrement(value: u64) -> (r: bool)
    ensures
        r == (value > 0),
{
    value > 0
}

/// Adds one, clamping at the maximum; the lifecycles only reach this after a
/// bound check, so the clamp is defensive.
pub fn saturating_increment(value: u64) -> (r: u64)
    ensures
        value < u64::MAX ==> r == value + 1,
        value == u64::MAX ==> r == u64::MAX,
{
    if value == u64::MAX {
        u64::MAX
    } else {
        value + 1
    }
}

/// Subtracts one, clamping at zero; reached only after a bound check.
pub fn saturating_decrement(value: u64) -> (r: u64)
    ensures
        value > 0 ==> r == value - 1,
        value == 0 ==> r == 0,
{
    if value == 0 {
        0
    } else {
        value - 1
    }
}

} // verus!
