//! Saturating arithmetic on `u64`, the numeric policy of the whole core:
//! resource flows clamp at the representable maximum rather than fail.

use vstd::prelude::*;

verus! {

/// The mathematical sum, capped at `u64::MAX`.
pub open spec fn sat_add_spec(a: int, b: int) -> int {
    if a + b > u64::MAX { u64::MAX as int } else { a + b }
}

/// The mathematical product, capped at `u64::MAX`.
pub open spec fn sat_mul_spec(a: int, b: int) -> int {
    if a * b > u64::MAX { u64::MAX as int } else { a * b }
}

/// The least of two integers.
pub open spec fn min2(a: int, b: int) -> int {
    if a <= b { a } else { b }
}

/// The least of three integers.
pub open spec fn min3(a: int, b: int, c: int) -> int {
    min2(a, min2(b, c))
}

/// Saturating addition of non-negative values folds in either order.
pub proof fn lemma_sat_add_assoc(a: int, b: int, c: int)
    requires
        a >= 0,
        b >= 0,
        c >= 0,
    ensures
        sat_add_spec(a, sat_add_spec(b, c)) == sat_add_spec(sat_add_spec(a, b), c),
{
}

/// Saturating addition.
pub fn sat_add(a: u64, b: u64) -> (r: u64)
    ensures
        r == sat_add_spec(a as int, b as int),
{
    if a > u64::MAX - b {
        u64::MAX
    } else {
        a + b
    }
}

/// Saturating multiplication, computed exactly in a wider word.
pub fn sat_mul(a: u64, b: u64) -> (r: u64)
    ensures
        r == sat_mul_spec(a as int, b as int),
{
    proof {
        assert((a as int) * (b as int) <= u128::MAX) by (nonlinear_arith)
            requires
                a <= u64::MAX,
                b <= u64::MAX,
        ;
    }
    let wide: u128 = (a as u128) * (b as u128);
    if wide > u64::MAX as u128 {
        u64::MAX
    } else {
        wide as u64
    }
}

/// The least of two machine words.
pub fn min_u64(a: u64, b: u64) -> (r: u64)
    ensures
        r == min2(a as int, b as int),
{
    if a <= b { a } else { b }
}

} // verus!
