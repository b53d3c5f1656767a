//! Saturating arithmetic on `i128`, as the contracts use it for balances.

use vstd::prelude::*;

verus! {

/// `x` clamped to the range of `i128`.
pub open spec fn clamp_i128(x: int) -> int {
    if x > i128::MAX {
        i128::MAX as int
    } else if x < i128::MIN {
        i128::MIN as int
    } else {
        x
    }
}

/// `a + b`, saturating at the bounds of `i128`.
pub fn sat_add_i128(a: i128, b: i128) -> (r: i128)
    ensures
        r == clamp_i128(a + b),
{
    match a.checked_add(b) {
        Some(v) => v,
        None => if b > 0 { i128::MAX } else { i128::MIN },
    }
}

/// `a - b`, saturating at the bounds of `i128`.
pub fn sat_sub_i128(a: i128, b: i128) -> (r: i128)
    ensures
        r == clamp_i128(a - b),
{
    match a.checked_sub(b) {
        Some(v) => v,
        None => if b < 0 { i128::MAX } else { i128::MIN },
    }
}

/// `a * b`, saturating at the bounds of `i128`.
pub fn sat_mul_i128(a: i128, b: i128) -> (r: i128)
    ensures
        r == clamp_i128(a * b),
{
    match a.checked_mul(b) {
        Some(v) => v,
        None => {
            if (a < 0) == (b < 0) {
                assert(a * b >= 0) by (nonlinear_arith)
                    requires (a < 0) == (b < 0);
                i128::MAX
            } else {
                assert(a * b <= 0) by (nonlinear_arith)
                    requires (a < 0) != (b < 0);
                i128::MIN
            }
        },
    }
}

} // verus!
