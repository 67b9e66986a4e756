//! Scoring: wrap-aware distance on the counter's cycle, the tier table, the score
//! of one stop and the rounded-up average of a turn.

use vstd::prelude::*;

verus! {

/// Number of positions on the counter's cycle when a turn is scored.
pub const CYCLE_LENGTH: u32 = 100;

/// `|a - b|`.
pub open spec fn abs_diff(a: int, b: int) -> int {
    if a >= b {
        a - b
    } else {
        b - a
    }
}

/// Shortest distance between `target` and `value` on a circle of `cycle` positions.
pub open spec fn wrap_dist(target: int, value: int, cycle: int) -> int {
    let d = abs_diff(target, value);
    if d <= cycle - d {
        d
    } else {
        cycle - d
    }
}

/// Base score of a distance: 0 gives 100, 1..=5 give 80, 6..=10 give 60,
/// 11..=20 give 40, 21..=50 give 20, and anything farther gives 0.
pub open spec fn tier_base_of(distance: int) -> int {
    if distance <= 0 {
        100
    } else if distance <= 5 {
        80
    } else if distance <= 10 {
        60
    } else if distance <= 20 {
        40
    } else if distance <= 50 {
        20
    } else {
        0
    }
}

/// Score of one stop: tier of the distance on a cycle of 100, plus strength,
/// divided by one more than the number of wraps.
pub open spec fn score_of(objective: int, value: int, miss: int, strength: int) -> int {
    (tier_base_of(wrap_dist(objective, value, CYCLE_LENGTH as int)) + strength) / (miss + 1)
}

/// Sum of a sequence of scores.
pub open spec fn sum_of(s: Seq<u32>) -> int
    decreases s.len(),
{
    if s.len() == 0 {
        0
    } else {
        sum_of(s.drop_last()) + s.last()
    }
}

/// Mean of a non-empty sequence, rounded up.
pub open spec fn ceil_mean(s: Seq<u32>) -> int {
    (sum_of(s) + s.len() - 1) / (s.len() as int)
}

/// Shortest distance on the cycle is symmetric and at most half the cycle.
pub proof fn lemma_wrap_distance_symmetric_bounded(target: int, value: int, cycle: int)
    requires
        0 <= target <= cycle,
        0 <= value <= cycle,
    ensures
        wrap_dist(target, value, cycle) == wrap_dist(value, target, cycle),
        0 <= wrap_dist(target, value, cycle),
        2 * wrap_dist(target, value, cycle) <= cycle,
{
}

/// The base score never grows as the distance grows.
pub proof fn lemma_tier_base_non_increasing(near: int, far: int)
    requires
        0 <= near <= far,
    ensures
        tier_base_of(near) >= tier_base_of(far),
{
}

/// The score computations of a turn.
pub struct ScoringCalculator;

impl ScoringCalculator {
    /// Shortest distance between `target` and `value` on a cycle of `cycle_length`
    /// positions, where `cycle_length` and 0 are the same point.
    pub fn wrap_distance(target: u32, value: u32, cycle_length: u32) -> (r: u32)
        requires
            target <= cycle_length,
            value <= cycle_length,
        ensures
            r == wrap_dist(target as int, value as int, cycle_length as int),
            2 * r <= cycle_length,
    {
        let d = if value >= target {
            value - target
        } else {
            target - value
        };
        let around = cycle_length - d;
        if d <= around {
            d
        } else {
            around
        }
    }

    /// Distance between an objective and a counter value on the scoring cycle.
    pub fn difference(objective: u32, counter_value: u32) -> (r: u32)
        requires
            objective <= CYCLE_LENGTH,
            counter_value <= CYCLE_LENGTH,
        ensures
            r == wrap_dist(objective as int, counter_value as int, CYCLE_LENGTH as int),
            r <= 50,
    {
        Self::wrap_distance(objective, counter_value, CYCLE_LENGTH)
    }

    /// Base score of a distance, by the tier table.
    pub fn tier_base(distance: u32) -> (r: u32)
        ensures
            r == tier_base_of(distance as int),
    {
        if distance == 0 {
            100
        } else if distance <= 5 {
            80
        } else if distance <= 10 {
            60
        } else if distance <= 20 {
            40
        } else if distance <= 50 {
            20
        } else {
            0
        }
    }

    /// Score of stopping the counter at `counter_value` for `objective`, after
    /// `miss` wraps, for a player of the given strength. The division truncates.
    pub fn calculate_score(objective: u32, counter_value: u32, miss: u32, strength: u32) -> (r: u32)
        requires
            objective <= CYCLE_LENGTH,
            counter_value <= CYCLE_LENGTH,
            strength <= u32::MAX - 100,
        ensures
            r == score_of(objective as int, counter_value as int, miss as int, strength as int),
    {
        let diff = Self::difference(objective, counter_value);
        let base = Self::tier_base(diff);
        let total = (base + strength) as u64;
        let divisor = miss as u64 + 1;
        let q = total / divisor;
        assert(q <= total) by (nonlinear_arith)
            requires
                q == total / divisor,
                divisor >= 1,
                total >= 0,
        ;
        q as u32
    }

    /// Mean of the scores, rounded up.
    pub fn calculate_average(scores: &[u32]) -> (r: u32)
        requires
            scores@.len() > 0,
        ensures
            r == ceil_mean(scores@),
            r * scores@.len() >= sum_of(scores@),
            (r - 1) * scores@.len() < sum_of(scores@),
    {
        let n = scores.len();
        let mut sum: u128 = 0;
        let mut i: usize = 0;
        while i < n
            invariant
                n == scores@.len(),
                i <= n,
                sum == sum_of(scores@.subrange(0, i as int)),
                sum <= i * (u32::MAX as int),
            decreases n - i,
        {
            assert(scores@.subrange(0, i + 1).drop_last() =~= scores@.subrange(0, i as int));
            sum = sum + scores[i] as u128;
            i = i + 1;
        }
        assert(scores@.subrange(0, n as int) =~= scores@);
        let total = sum + (n as u128) - 1;
        let q = total / (n as u128);
        proof {
            let s = sum_of(scores@);
            let len = n as int;
            let m = u32::MAX as int;
            assert(0 <= s <= len * m);
            assert(q * len <= s + len - 1 && s + len - 1 < q * len + len) by (nonlinear_arith)
                requires
                    q == (s + len - 1) / len,
                    len > 0,
                    s >= 0,
            ;
            assert(q <= m) by (nonlinear_arith)
                requires
                    q * len <= s + len - 1,
                    s <= len * m,
                    len > 0,
            ;
            assert(q * len >= s && (q - 1) * len < s) by (nonlinear_arith)
                requires
                    q * len <= s + len - 1,
                    s + len - 1 < q * len + len,
                    len > 0,
            ;
        }
        q as u32
    }
}

} // verus!
