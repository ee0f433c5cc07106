//! Unsigned fixed-point helpers.
//!
//! All reward and liveliness formulas reduce to `a * b / denom` with the
//! product taken at full width, always flooring. Flooring systematically
//! under-pays fractional remainders, a deliberate bias toward pool solvency.

use vstd::prelude::*;

verus! {

/// `a * b / denom` over the mathematical integers (the floor of the exact
/// quotient, since every operand is non-negative).
pub open spec fn spec_mul_div_floor(a: u64, b: u64, denom: u64) -> int {
    (a * b) / (denom as int)
}

/// `mul_div_floor` succeeds exactly when the denominator is non-zero and the
/// floored quotient fits in a `u64`.
pub open spec fn mul_div_floor_fits(a: u64, b: u64, denom: u64) -> bool {
    denom > 0 && spec_mul_div_floor(a, b, denom) <= u64::MAX
}

/// Saturating subtraction: floors at zero instead of underflowing.
pub open spec fn spec_sat_sub(a: int, b: int) -> int {
    if a >= b {
        a - b
    } else {
        0
    }
}

/// Saturating `u64` addition: caps at `u64::MAX`.
pub open spec fn spec_sat_add(a: int, b: int) -> int {
    if a + b > u64::MAX {
        u64::MAX as int
    } else {
        a + b
    }
}

/// Saturating `u64` multiplication: caps at `u64::MAX`.
pub open spec fn spec_sat_mul(a: int, b: int) -> int {
    if a * b > u64::MAX {
        u64::MAX as int
    } else {
        a * b
    }
}

/// Floor-division multiply-divide: `a * b / denom` with the product taken at
/// full 128-bit width. Returns `None` when the denominator is zero or the
/// quotient does not fit in a `u64`; no intermediate step can overflow.
pub fn mul_div_floor(a: u64, b: u64, denom: u64) -> (r: Option<u64>)
    ensures
        r is Some <==> mul_div_floor_fits(a, b, denom),
        r is Some ==> r->0 == spec_mul_div_floor(a, b, denom),
{
    if denom == 0 {
        return None;
    }
    assert((a as u128) * (b as u128) <= u128::MAX) by (nonlinear_arith)
        requires
            a <= u64::MAX,
            b <= u64::MAX,
    ;
    let p: u128 = (a as u128) * (b as u128);
    let q: u128 = p / (denom as u128);
    assert(q == spec_mul_div_floor(a, b, denom));
    if q > u64::MAX as u128 {
        None
    } else {
        Some(q as u64)
    }
}

} // verus!
