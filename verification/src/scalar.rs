//! Fixed-point scalars.
//!
//! Every quantity of the engine is an integer count of millionths of a unit:
//! positions, velocities and gravity are signed (`i64`), durations and sizes
//! are unsigned (`u64`). Sums of signed scalars are held at the ends of the
//! `i64` range instead of wrapping.

use vstd::prelude::*;

verus! {

/// One whole unit.
pub const ONE: u64 = 1_000_000;

/// `v`, held at the ends of the `i64` range.
pub open spec fn clamp(v: int) -> i64 {
    if v > i64::MAX {
        i64::MAX
    } else if v < i64::MIN {
        i64::MIN
    } else {
        v as i64
    }
}

/// The elapsed time `life + dt`, held at `u64::MAX`.
pub open spec fn aged(life: u64, dt: u64) -> u64 {
    if life + dt > u64::MAX {
        u64::MAX
    } else {
        (life + dt) as u64
    }
}

/// The part of `budget` that `elapsed` has used up, as a fraction of `ONE`,
/// rounded down.
pub open spec fn fraction(elapsed: u64, budget: u64) -> int {
    (elapsed * ONE) / (budget as int)
}

/// `amount` scaled by `factor / ONE`, rounded down.
pub open spec fn scaled(amount: u64, factor: int) -> int {
    (amount * factor) / (ONE as int)
}

/// A used-up fraction of a budget that is not yet spent lies below `ONE`.
pub proof fn lemma_fraction_below_one(elapsed: u64, budget: u64)
    requires
        elapsed < budget,
    ensures
        0 <= fraction(elapsed, budget) < ONE,
        fraction(0, budget) == 0,
{
    let b = budget as int;
    let n = elapsed * ONE;
    assert(0 <= n < ONE * b) by (nonlinear_arith)
        requires
            0 <= elapsed < b,
            n == elapsed * ONE,
    ;
    assert(0 <= n / b < ONE) by (nonlinear_arith)
        requires
            0 <= n < ONE * b,
            b > 0,
    ;
    assert((0 * ONE) / b == 0) by (nonlinear_arith)
        requires
            b > 0,
    ;
}

/// Scaling by a factor of at most `ONE` never enlarges, and scaling by `ONE`
/// changes nothing.
pub proof fn lemma_scaled_bounds(amount: u64, factor: int)
    requires
        0 <= factor <= ONE,
    ensures
        0 <= scaled(amount, factor) <= amount,
        scaled(amount, ONE as int) == amount,
        scaled(amount, 0) == 0,
{
    let one = ONE as int;
    let n = amount * factor;
    assert(0 <= n <= amount * one) by (nonlinear_arith)
        requires
            0 <= factor <= one,
            0 <= amount,
            n == amount * factor,
    ;
    assert(0 <= n / one <= amount) by (nonlinear_arith)
        requires
            0 <= n <= amount * one,
            one > 0,
    ;
    assert((amount * one) / one == amount) by (nonlinear_arith)
        requires
            one > 0,
    ;
    assert((amount * 0) / one == 0) by (nonlinear_arith)
        requires
            one > 0,
    ;
}

/// Sum of two signed scalars, held at the ends of the representable range.
pub fn add_clamped(a: i64, b: i64) -> (r: i64)
    ensures
        r == clamp(a + b),
{
    let wide: i128 = a as i128 + b as i128;
    if wide > i64::MAX as i128 {
        i64::MAX
    } else if wide < i64::MIN as i128 {
        i64::MIN
    } else {
        wide as i64
    }
}

/// Difference of two signed scalars, held at the ends of the representable
/// range.
pub fn sub_clamped(a: i64, b: i64) -> (r: i64)
    ensures
        r == clamp(a - b),
{
    let wide: i128 = a as i128 - b as i128;
    if wide > i64::MAX as i128 {
        i64::MAX
    } else if wide < i64::MIN as i128 {
        i64::MIN
    } else {
        wide as i64
    }
}

/// The used-up fraction of a budget that is not yet spent.
pub fn fraction_of(elapsed: u64, budget: u64) -> (r: u64)
    requires
        elapsed < budget,
    ensures
        r == fraction(elapsed, budget),
        r < ONE,
{
    proof {
        lemma_fraction_below_one(elapsed, budget);
        assert(elapsed * ONE <= u64::MAX * ONE) by (nonlinear_arith)
            requires
                0 <= elapsed <= u64::MAX,
        ;
    }
    let n: u128 = elapsed as u128 * ONE as u128;
    (n / budget as u128) as u64
}

/// `amount` scaled by `factor / ONE`, for a factor of at most `ONE`.
pub fn scale(amount: u64, factor: u64) -> (r: u64)
    requires
        factor <= ONE,
    ensures
        r == scaled(amount, factor as int),
        r <= amount,
{
    proof {
        lemma_scaled_bounds(amount, factor as int);
        assert(amount * factor <= u64::MAX * ONE) by (nonlinear_arith)
            requires
                0 <= amount <= u64::MAX,
                0 <= factor <= ONE,
        ;
    }
    let n: u128 = amount as u128 * factor as u128;
    (n / ONE as u128) as u64
}

} // verus!
