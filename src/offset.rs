//! Overflow-checked offset arithmetic.
use vstd::prelude::*;

verus! {

/// The offset reached from `base` by a signed `delta`, computed through `i64`:
/// `base` must fit in an `i64`, the sum must fit in an `i64`, and the sum must
/// not be negative.
pub open spec fn offset_after(base: u64, delta: i64) -> Option<u64> {
    if base <= i64::MAX && 0 <= base + delta <= i64::MAX {
        Some((base + delta) as u64)
    } else {
        None
    }
}

/// Widens a byte count to a file offset.
pub fn u64_from(x: usize) -> (r: u64)
    ensures
        r == x,
{
    x as u64
}

/// Adds `delta` to `base`: converts `base` to `i64`, adds with overflow
/// checking, and converts the sum back to `u64`. Any failed step gives `None`.
pub fn calc_pos(base: u64, delta: i64) -> (r: Option<u64>)
    ensures
        r == offset_after(base, delta),
{
    if base > i64::MAX as u64 {
        return None;
    }
    let signed: i64 = base as i64;
    let sum: Option<i64> = signed.checked_add(delta);
    match sum {
        Some(s) => {
            if s < 0 {
                None
            } else {
                Some(s as u64)
            }
        },
        None => None,
    }
}

} // verus!
