//! Exponential moving average over periodic throughput samples.
//!
//! The weight given to a new sample, `1 - e^(-elapsed / time_window)`, is
//! handed in as an integer in parts of `WEIGHT_SCALE`: a weight of zero keeps
//! the old value, a weight of `WEIGHT_SCALE` takes the new one. Values are
//! kept in fixed point by the caller (see `RATE_UNIT`), so that a small
//! difference between sample and smoothed value is not rounded away.
use vstd::prelude::*;

verus! {

/// The fixed-point unit of a smoothing weight: `WEIGHT_SCALE` stands for 1.
pub const WEIGHT_SCALE: u64 = 1_000_000;

/// The fixed-point unit of a rate: a rate of `RATE_UNIT` is one attempt per
/// tick.
pub const RATE_UNIT: u128 = 1_000_000;

/// The largest value the estimator takes: any 64-bit count, in `RATE_UNIT`s.
pub const MAX_SAMPLE: u128 = 0xffff_ffff_ffff_ffff * 1_000_000;

/// `weight * value + (1 - weight) * old_value`, with the weight in parts of
/// `WEIGHT_SCALE`, rounded down.
pub open spec fn blend(value: int, old_value: int, weight: int) -> int {
    (weight * value + (WEIGHT_SCALE - weight) * old_value) / (WEIGHT_SCALE as int)
}

pub open spec fn min_of(a: int, b: int) -> int {
    if a <= b { a } else { b }
}

pub open spec fn max_of(a: int, b: int) -> int {
    if a <= b { b } else { a }
}

/// The blend of `value` and `old_value` lies between the two.
proof fn lemma_blend_bounds(value: int, old_value: int, weight: int)
    requires
        0 <= weight <= WEIGHT_SCALE,
    ensures
        min_of(value, old_value) <= blend(value, old_value, weight) <= max_of(value, old_value),
{
    let s = WEIGHT_SCALE as int;
    let lo = min_of(value, old_value);
    let hi = max_of(value, old_value);
    let num = weight * value + (s - weight) * old_value;
    assert(lo * s <= num <= hi * s) by (nonlinear_arith)
        requires
            0 <= weight <= s,
            lo <= value <= hi,
            lo <= old_value <= hi,
            num == weight * value + (s - weight) * old_value,
    ;
    assert(lo <= num / s <= hi) by (nonlinear_arith)
        requires
            lo * s <= num <= hi * s,
            s > 0,
    ;
}

/// Blends a new throughput sample into the smoothed value: the result is
/// `weight * value + (1 - weight) * old_value`, rounded down.
pub fn exp_moving_average(value: u128, old_value: u128, weight: u64) -> (r: u128)
    requires
        value <= MAX_SAMPLE,
        old_value <= MAX_SAMPLE,
        weight <= WEIGHT_SCALE,
    ensures
        r == blend(value as int, old_value as int, weight as int),
{
    proof {
        lemma_blend_bounds(value as int, old_value as int, weight as int);
    }
    let w = weight as u128;
    let s = WEIGHT_SCALE as u128;
    assert(w * value <= s * MAX_SAMPLE) by (nonlinear_arith)
        requires
            w <= s,
            value <= MAX_SAMPLE,
    ;
    assert((s - w) * old_value <= s * MAX_SAMPLE) by (nonlinear_arith)
        requires
            w <= s,
            old_value <= MAX_SAMPLE,
    ;
    let num = w * value + (s - w) * old_value;
    num / s
}

/// Smoothing never leaves the range of its inputs: the new smoothed value
/// lies between the old smoothed value and the new sample, both included.
pub proof fn lemma_average_between(value: nat, old_value: nat, weight: u64)
    requires
        weight <= WEIGHT_SCALE,
    ensures
        min_of(value as int, old_value as int) <= blend(value as int, old_value as int, weight as int),
        blend(value as int, old_value as int, weight as int) <= max_of(value as int, old_value as int),
{
    lemma_blend_bounds(value as int, old_value as int, weight as int);
}

/// A sample taken after no elapsed time has weight zero and leaves the
/// smoothed value unchanged.
pub proof fn lemma_average_zero_weight(value: nat, old_value: nat)
    ensures
        blend(value as int, old_value as int, 0) == old_value,
{
    let s = WEIGHT_SCALE as int;
    assert((0 * (value as int) + (s - 0) * (old_value as int)) / s == old_value as int) by (nonlinear_arith)
        requires
            s > 0,
    ;
}

/// At full weight, the limit of an ever longer elapsed time, the smoothed
/// value is the new sample.
pub proof fn lemma_average_full_weight(value: nat, old_value: nat)
    ensures
        blend(value as int, old_value as int, WEIGHT_SCALE as int) == value,
{
    let s = WEIGHT_SCALE as int;
    assert((s * (value as int) + (s - s) * (old_value as int)) / s == value as int) by (nonlinear_arith)
        requires
            s > 0,
    ;
}

/// The distance of the smoothed value from the new sample.
pub open spec fn distance_to_sample(value: int, old_value: int, weight: int) -> int {
    let b = blend(value, old_value, weight);
    if b <= value { value - b } else { b - value }
}

/// The longer the time since the previous sample, the greater its weight,
/// and the closer the smoothed value comes to the new sample.
pub proof fn lemma_average_approaches_sample(value: nat, old_value: nat, w1: u64, w2: u64)
    requires
        w1 <= w2 <= WEIGHT_SCALE,
    ensures
        distance_to_sample(value as int, old_value as int, w2 as int)
            <= distance_to_sample(value as int, old_value as int, w1 as int),
{
    let s = WEIGHT_SCALE as int;
    let v = value as int;
    let o = old_value as int;
    let n1 = w1 * v + (s - w1) * o;
    let n2 = w2 * v + (s - w2) * o;
    lemma_blend_bounds(v, o, w1 as int);
    lemma_blend_bounds(v, o, w2 as int);
    if v >= o {
        assert(n1 <= n2) by (nonlinear_arith)
            requires
                n1 == w1 * v + (s - w1) * o,
                n2 == w2 * v + (s - w2) * o,
                w1 <= w2,
                v >= o,
        ;
        assert(n1 / s <= n2 / s) by (nonlinear_arith)
            requires
                n1 <= n2,
                s > 0,
        ;
    } else {
        assert(n2 <= n1) by (nonlinear_arith)
            requires
                n1 == w1 * v + (s - w1) * o,
                n2 == w2 * v + (s - w2) * o,
                w1 <= w2,
                v < o,
        ;
        assert(n2 / s <= n1 / s) by (nonlinear_arith)
            requires
                n2 <= n1,
                s > 0,
        ;
    }
}

} // verus!
