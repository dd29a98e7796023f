//! Integer helpers whose results are proved to stay within `u64`.

use vstd::prelude::*;

verus! {

/// The quotient of `x` by `y`, rounded towards positive infinity.
pub open spec fn spec_div_ceil(x: int, y: int) -> int
    recommends
        y > 0,
{
    if x % y == 0 {
        x / y
    } else {
        x / y + 1
    }
}

/// Calculates the quotient of `x` and `y`, rounding the result towards
/// positive infinity.
pub fn div_ceil(x: u64, y: u64) -> (q: u64)
    requires
        y != 0,
    ensures
        q == spec_div_ceil(x as int, y as int),
{
    let q: u64 = x / y;
    let r: u64 = x % y;
    if r != 0 {
        proof {
            lemma_div_ceil_fits(x, y);
        }
        q + 1
    } else {
        q
    }
}

/// Unchecked integer addition. Computes `x + y`, for operands whose sum is
/// known to fit.
#[must_use]
#[inline(always)]
pub fn unchecked_add(x: u64, y: u64) -> (z: u64)
    requires
        x + y <= u64::MAX,
    ensures
        z == x + y,
{
    x + y
}

/// Unchecked integer subtraction. Computes `x - y`, for operands whose
/// difference is known not to be negative.
#[must_use]
#[inline(always)]
pub fn unchecked_sub(x: u64, y: u64) -> (z: u64)
    requires
        y <= x,
    ensures
        z == x - y,
{
    x - y
}

/// Unchecked integer multiplication. Computes `x * y`, for operands whose
/// product is known to fit.
#[must_use]
#[inline(always)]
pub fn unchecked_mul(x: u64, y: u64) -> (z: u64)
    requires
        x * y <= u64::MAX,
    ensures
        z == x * y,
{
    x * y
}

/// Unchecked shift left. Computes `n << shift`, for a `shift` that is less
/// than the number of bits in `n`.
#[must_use]
#[inline(always)]
pub fn unchecked_shl(n: u64, shift: u32) -> (m: u64)
    requires
        shift < u64::BITS,
    ensures
        m == n << shift,
{
    n << shift
}

/// Unchecked shift right. Computes `n >> shift`, for a `shift` that is less
/// than the number of bits in `n`.
#[must_use]
#[inline(always)]
pub fn unchecked_shr(n: u64, shift: u32) -> (m: u64)
    requires
        shift < u64::BITS,
    ensures
        m == n >> shift,
{
    n >> shift
}

/// A rounded-up quotient of a `u64` never leaves `u64`.
pub proof fn lemma_div_ceil_fits(x: u64, y: u64)
    requires
        y != 0,
    ensures
        0 <= spec_div_ceil(x as int, y as int) <= x,
        spec_div_ceil(x as int, y as int) <= u64::MAX,
{
    assert(0 <= x / y <= x && (x % y != 0 ==> x / y < x)) by (nonlinear_arith)
        requires
            y > 0,
    ;
}

} // verus!
