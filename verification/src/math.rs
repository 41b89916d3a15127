//! Exact unsigned integer primitives used by every deposit formula:
//! wide multiplication, floor division, and the integer square root.

use vstd::prelude::*;
use vstd::arithmetic::mul::lemma_mul_upper_bound;

verus! {

/// `r` is the floor integer square root of `n`:
/// the unique `r >= 0` with `r * r <= n < (r + 1) * (r + 1)`.
pub open spec fn is_isqrt(n: int, r: int) -> bool {
    &&& 0 <= r
    &&& r * r <= n < (r + 1) * (r + 1)
}

/// The floor integer square root is unique: any two values satisfying
/// `is_isqrt` for the same radicand are equal.
pub proof fn lemma_isqrt_unique(n: int, r1: int, r2: int)
    requires
        is_isqrt(n, r1),
        is_isqrt(n, r2),
    ensures
        r1 == r2,
{
    assert(r1 == r2) by (nonlinear_arith)
        requires
            0 <= r1,
            r1 * r1 <= n < (r1 + 1) * (r1 + 1),
            0 <= r2,
            r2 * r2 <= n < (r2 + 1) * (r2 + 1),
    ;
}

/// Exact product of two 64-bit values; the result always fits 128 bits.
pub fn wide_mul(a: u64, b: u64) -> (r: u128)
    ensures
        r == a as int * b as int,
{
    proof {
        lemma_mul_upper_bound(a as int, u64::MAX as int, b as int, u64::MAX as int);
    }
    (a as u128) * (b as u128)
}

/// Floor (truncating) division; a zero denominator is ruled out by the caller.
pub fn floor_div(numerator: u128, denominator: u128) -> (r: u128)
    requires
        denominator != 0,
    ensures
        r == numerator as int / denominator as int,
{
    numerator / denominator
}

/// Floor integer square root by binary search over the 64-bit result range.
pub fn isqrt(n: u128) -> (r: u128)
    ensures
        is_isqrt(n as int, r as int),
        r <= u64::MAX,
{
    let mut lo: u128 = 0;
    let mut hi: u128 = 0x1_0000_0000_0000_0000;
    assert(hi as int * hi as int > u128::MAX as int) by (nonlinear_arith)
        requires
            hi == 0x1_0000_0000_0000_0000u128,
    ;
    while lo + 1 < hi
        invariant
            lo < hi <= 0x1_0000_0000_0000_0000,
            lo as int * lo as int <= n as int,
            hi as int * hi as int > n as int,
        decreases hi - lo,
    {
        let mid: u128 = lo + (hi - lo) / 2;
        assert(lo < mid < hi);
        assert(mid as int * mid as int <= u128::MAX as int) by (nonlinear_arith)
            requires
                mid < 0x1_0000_0000_0000_0000u128,
        ;
        let sq: u128 = mid * mid;
        if sq <= n {
            lo = mid;
        } else {
            hi = mid;
        }
    }
    lo
}

} // verus!
