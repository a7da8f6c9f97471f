//! Fixed-point scalar arithmetic.
//!
//! Every scalar quantity of the camera model is a signed 64-bit integer that
//! stands for the real number `raw / FP_ONE`.  All operations round toward
//! zero, matching hardware signed division, and every executable function
//! states its exact result over the mathematical integers.

use vstd::prelude::*;

verus! {

/// Scale of the fixed-point representation: a raw value `v` stands for `v / FP_ONE`.
pub const FP_ONE: i64 = 65536;

/// Largest magnitude accepted for coordinates, pixel positions and other
/// external fixed-point inputs (2^39; about eight million scene units).
pub const FP_MAX: i64 = 549755813888;

/// Truncating division, rounding toward zero; defined for positive divisors.
pub open spec fn trunc_div(a: int, d: int) -> int
    recommends
        d > 0,
{
    if a >= 0 {
        a / d
    } else {
        -((-a) / d)
    }
}

/// Product of two fixed-point values.
pub open spec fn spec_fp_mul(a: int, b: int) -> int {
    trunc_div(a * b, FP_ONE as int)
}

/// Quotient of two fixed-point values; the divisor must be positive.
pub open spec fn spec_fp_div(a: int, b: int) -> int
    recommends
        b > 0,
{
    trunc_div(a * (FP_ONE as int), b)
}

pub open spec fn spec_clamp(x: int, lo: int, hi: int) -> int {
    if x < lo {
        lo
    } else if x > hi {
        hi
    } else {
        x
    }
}

/// Magnitude bound for a product of bounded factors.
pub proof fn lemma_abs_mul(a: int, b: int, aa: int, bb: int)
    requires
        -aa <= a <= aa,
        -bb <= b <= bb,
    ensures
        -(aa * bb) <= a * b <= aa * bb,
{
    assert(-(aa * bb) <= a * b <= aa * bb) by (nonlinear_arith)
        requires
            -aa <= a <= aa,
            -bb <= b <= bb,
    ;
}

/// Truncating division shrinks magnitudes: `|p / d| <= |p|` for `d >= 1`.
pub proof fn lemma_trunc_div_shrinks(p: int, d: int)
    requires
        d >= 1,
    ensures
        p >= 0 ==> 0 <= trunc_div(p, d) <= p,
        p < 0 ==> p <= trunc_div(p, d) <= 0,
{
    if p >= 0 {
        assert(0 <= p / d <= p) by (nonlinear_arith)
            requires
                d >= 1,
                p >= 0,
        ;
    } else {
        assert(0 <= (-p) / d <= -p) by (nonlinear_arith)
            requires
                d >= 1,
                p < 0,
        ;
    }
}

/// A bound on the dividend gives a bound on the truncated quotient.
pub proof fn lemma_trunc_div_bound(p: int, d: int, bound: int)
    requires
        d >= 1,
        -(bound * d) <= p <= bound * d,
        bound >= 0,
    ensures
        -bound <= trunc_div(p, d) <= bound,
{
    if p >= 0 {
        assert(p / d <= bound) by (nonlinear_arith)
            requires
                d >= 1,
                0 <= p <= bound * d,
        ;
        assert(p / d >= 0) by (nonlinear_arith)
            requires
                d >= 1,
                p >= 0,
        ;
    } else {
        assert((-p) / d <= bound) by (nonlinear_arith)
            requires
                d >= 1,
                0 <= -p <= bound * d,
        ;
        assert((-p) / d >= 0) by (nonlinear_arith)
            requires
                d >= 1,
                -p >= 0,
        ;
    }
}

/// Exact truncating division of a wide intermediate by a positive divisor.
fn div_i128(p: i128, d: i128) -> (r: i128)
    requires
        d >= 1,
        p > i128::MIN,
    ensures
        r == trunc_div(p as int, d as int),
{
    proof {
        lemma_trunc_div_shrinks(p as int, d as int);
    }
    if p >= 0 {
        p / d
    } else {
        -((-p) / d)
    }
}

/// Fixed-point multiplication; the caller shows that the result is representable.
pub fn fp_mul(a: i64, b: i64) -> (r: i64)
    requires
        i64::MIN <= spec_fp_mul(a as int, b as int) <= i64::MAX,
    ensures
        r == spec_fp_mul(a as int, b as int),
{
    proof {
        lemma_abs_mul(a as int, b as int, 0x8000000000000000, 0x8000000000000000);
    }
    let p: i128 = (a as i128) * (b as i128);
    let q: i128 = div_i128(p, FP_ONE as i128);
    q as i64
}

/// Fixed-point division by a positive divisor; the caller shows that the
/// result is representable.
pub fn fp_div(a: i64, b: i64) -> (r: i64)
    requires
        b >= 1,
        i64::MIN <= spec_fp_div(a as int, b as int) <= i64::MAX,
    ensures
        r == spec_fp_div(a as int, b as int),
{
    proof {
        lemma_abs_mul(a as int, FP_ONE as int, 0x8000000000000000, FP_ONE as int);
    }
    let p: i128 = (a as i128) * (FP_ONE as i128);
    let q: i128 = div_i128(p, b as i128);
    q as i64
}

/// Clamp a value into a closed interval.
pub fn fp_clamp(x: i64, lo: i64, hi: i64) -> (r: i64)
    requires
        lo <= hi,
    ensures
        r == spec_clamp(x as int, lo as int, hi as int),
{
    if x < lo {
        lo
    } else if x > hi {
        hi
    } else {
        x
    }
}

/// A bound on a square gives a bound on the value itself.
pub proof fn lemma_sq_le(c: int, m: int)
    requires
        m >= 0,
        c * c <= m * m,
    ensures
        -m <= c <= m,
{
    assert(-m <= c <= m) by (nonlinear_arith)
        requires
            m >= 0,
            c * c <= m * m,
    ;
}

/// A strict bound on a square gives a strict bound on the value itself.
pub proof fn lemma_sq_lt(c: int, m: int)
    requires
        m >= 0,
        c * c < m * m,
    ensures
        -m < c < m,
{
    assert(-m < c < m) by (nonlinear_arith)
        requires
            m >= 0,
            c * c < m * m,
    ;
}

/// Truncating division is exact on multiples of the divisor.
pub proof fn lemma_trunc_div_exact(k: int, d: int)
    requires
        d >= 1,
    ensures
        trunc_div(k * d, d) == k,
{
    if k >= 0 {
        assert((k * d) / d == k) by (nonlinear_arith)
            requires
                d >= 1,
                k >= 0,
        ;
    } else {
        assert(k * d < 0) by (nonlinear_arith)
            requires
                d >= 1,
                k < 0,
        ;
        assert(-(k * d) == (-k) * d) by (nonlinear_arith);
        assert(((-k) * d) / d == -k) by (nonlinear_arith)
            requires
                d >= 1,
                -k >= 0,
        ;
    }
}

/// The integer square root: the largest `r` with `r * r <= n`.
pub open spec fn is_isqrt(n: int, r: int) -> bool {
    r >= 0 && r * r <= n < (r + 1) * (r + 1)
}

/// The integer square root as a function; meaningful for `n >= 0`.
pub open spec fn spec_isqrt(n: int) -> int {
    choose|r: int| is_isqrt(n, r)
}

/// Every non-negative integer has an integer square root.
pub proof fn lemma_isqrt_exists(n: nat)
    ensures
        is_isqrt(n as int, spec_isqrt(n as int)),
    decreases n,
{
    if n == 0 {
        assert(is_isqrt(0, 0));
        assert(is_isqrt(0int, spec_isqrt(0int)));
    } else {
        lemma_isqrt_exists((n - 1) as nat);
        let r = spec_isqrt(n - 1);
        if (r + 1) * (r + 1) == n {
            assert((r + 2) * (r + 2) > n) by (nonlinear_arith)
                requires
                    r >= 0,
                    (r + 1) * (r + 1) == n,
            ;
            assert(is_isqrt(n as int, r + 1));
        } else {
            assert(is_isqrt(n as int, r));
        }
        assert(is_isqrt(n as int, spec_isqrt(n as int)));
    }
}

/// The integer square root is unique.
pub proof fn lemma_isqrt_unique(n: int, r: int)
    requires
        n >= 0,
        is_isqrt(n, r),
    ensures
        r == spec_isqrt(n),
{
    lemma_isqrt_exists(n as nat);
    let s = spec_isqrt(n);
    assert(r == s) by (nonlinear_arith)
        requires
            r >= 0 && r * r <= n < (r + 1) * (r + 1),
            s >= 0 && s * s <= n < (s + 1) * (s + 1),
    ;
}

/// Integer square root by binary search.
pub fn isqrt(n: u64) -> (r: u64)
    ensures
        is_isqrt(n as int, r as int),
        r == spec_isqrt(n as int),
{
    let mut lo: u64 = 0;
    let mut hi: u64 = 4294967296;
    proof {
        assert((hi as int) * (hi as int) > n as int) by (nonlinear_arith)
            requires
                hi == 4294967296,
                n <= 0xffffffffffffffffu64,
        ;
    }
    while hi - lo > 1
        invariant
            0 <= lo < hi <= 4294967296,
            (lo as int) * (lo as int) <= n as int,
            (hi as int) * (hi as int) > n as int,
        decreases hi - lo,
    {
        let mid: u64 = lo + (hi - lo) / 2;
        proof {
            lemma_abs_mul(mid as int, mid as int, 0x100000000, 0x100000000);
        }
        let sq: u128 = (mid as u128) * (mid as u128);
        if sq <= n as u128 {
            lo = mid;
        } else {
            hi = mid;
        }
    }
    proof {
        lemma_isqrt_unique(n as int, lo as int);
    }
    lo
}

} // verus!
