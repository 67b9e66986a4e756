//! Score of a stop computed from a distance already known, with a signed strength.

use vstd::prelude::*;
use crate::scoring::{tier_base_of, ScoringCalculator};

verus! {

/// Quotient of `a` by a positive `b`, truncated toward zero.
pub open spec fn trunc_div(a: int, b: int) -> int {
    if a >= 0 {
        a / b
    } else {
        -((-a) / b)
    }
}

/// Score for a distance `diff`, after `miss` wraps, for a player of the given
/// strength: the tier of the distance plus strength, divided by `miss + 1` with
/// the quotient truncated toward zero.
pub fn calculate_score(diff: u32, miss: u32, strength: i32) -> (r: i32)
    requires
        miss < i32::MAX,
        strength <= i32::MAX - 100,
    ensures
        r == trunc_div(tier_base_of(diff as int) + strength, miss + 1),
{
    let base = ScoringCalculator::tier_base(diff) as i32;
    let total = base + strength;
    let divisor = miss as i32 + 1;
    total / divisor
}

} // verus!
