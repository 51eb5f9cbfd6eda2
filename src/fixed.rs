//! Fixed-point helpers: division rounding toward zero and integer square root.
use vstd::prelude::*;

verus! {

/// Division of `a` by a positive `d`, rounding toward zero (as Rust's `/`).
pub open spec fn trunc_div(a: int, d: int) -> int {
    if a >= 0 {
        a / d
    } else {
        -((-a) / d)
    }
}

/// Divides `a` by the positive `d`, rounding toward zero.
pub fn div_toward_zero(a: i128, d: i128) -> (r: i128)
    requires
        d > 0,
        a > i128::MIN,
    ensures
        r == trunc_div(a as int, d as int),
{
    if a >= 0 {
        ((a as u128) / (d as u128)) as i128
    } else {
        let q = ((-a) as u128) / (d as u128);
        assert(q <= (-a) as u128) by (nonlinear_arith)
            requires
                q == ((-a) as u128) / (d as u128),
                d > 0,
        ;
        -(q as i128)
    }
}

/// The magnitude of a quotient rounded toward zero never exceeds the magnitude
/// of the dividend divided exactly.
pub proof fn lemma_trunc_div_bound(a: int, d: int)
    requires
        d > 0,
    ensures
        a >= 0 ==> 0 <= trunc_div(a, d) <= a && d * trunc_div(a, d) <= a,
        a < 0 ==> a <= trunc_div(a, d) <= 0 && a <= d * trunc_div(a, d),
{
    if a >= 0 {
        assert(0 <= d * (a / d) <= a) by (nonlinear_arith)
            requires
                a >= 0,
                d > 0,
        ;
        assert(0 <= a / d <= a) by (nonlinear_arith)
            requires
                a >= 0,
                d > 0,
        ;
    } else {
        let b = -a;
        assert(0 <= d * (b / d) <= b) by (nonlinear_arith)
            requires
                b >= 0,
                d > 0,
        ;
        assert(0 <= b / d <= b) by (nonlinear_arith)
            requires
                b >= 0,
                d > 0,
        ;
        assert(d * (-(b / d)) == -(d * (b / d))) by (nonlinear_arith);
    }
}

/// The largest `r` with `r * r <= n`, for `n` below one million squared.
pub fn isqrt(n: u64) -> (r: u64)
    requires
        n < 1_000_000_000_000,
    ensures
        r * r <= n < (r + 1) * (r + 1),
{
    let mut lo: u64 = 0;
    let mut hi: u64 = 1_000_000;
    while hi - lo > 1
        invariant
            lo < hi <= 1_000_000,
            lo * lo <= n,
            n < hi * hi,
        decreases hi - lo,
    {
        let mid: u64 = lo + (hi - lo) / 2;
        assert(mid * mid <= 1_000_000_000_000) by (nonlinear_arith)
            requires
                mid <= 1_000_000,
        ;
        if mid * mid <= n {
            lo = mid;
        } else {
            hi = mid;
        }
    }
    lo
}

} // verus!
