//! Fixed-point scalar arithmetic: the number `v` stands for the real value
//! `v / FX_ONE`. Products and quotients round toward zero, exactly as the
//! spec functions below say.

use vstd::arithmetic::div_mod::*;
use vstd::prelude::*;

verus! {

/// One whole unit: values carry 16 fractional bits.
pub const FX_ONE: i64 = 65536;

/// Largest magnitude admitted for world-space offsets held in the camera
/// state (2^48 fixed units, about 4.3e9 whole units): keeps every derived
/// matrix entry well inside the i64 range.
pub const FX_LIMIT: i64 = 281474976710656;

/// Truncating (round-toward-zero) division, the rounding used by every
/// fixed-point operation. `b` is expected positive.
pub open spec fn tdiv(a: int, b: int) -> int {
    if a >= 0 {
        a / b
    } else {
        -((-a) / b)
    }
}

/// Fixed-point product: `(a * b) / FX_ONE`, rounded toward zero.
pub open spec fn fmul(a: int, b: int) -> int {
    tdiv(a * b, FX_ONE as int)
}

/// Fixed-point quotient: `(a * FX_ONE) / b`, rounded toward zero.
pub open spec fn fdiv(a: int, b: int) -> int {
    tdiv(a * FX_ONE, b)
}

/// Clamp into the unit interval `[-FX_ONE, FX_ONE]`.
pub open spec fn clamp_one(a: int) -> int {
    if a < -(FX_ONE as int) {
        -(FX_ONE as int)
    } else if a > FX_ONE as int {
        FX_ONE as int
    } else {
        a
    }
}

/// Integer square root, rounded down; 0 for negative arguments.
pub open spec fn sqrt_floor(n: int) -> int
    decreases n,
{
    if n <= 0 {
        0
    } else {
        let r = sqrt_floor(n - 1);
        if (r + 1) * (r + 1) <= n {
            r + 1
        } else {
            r
        }
    }
}

/// `sqrt_floor(n)` is the unique `r >= 0` with `r * r <= n < (r + 1) * (r + 1)`.
pub proof fn lemma_sqrt_floor_bounds(n: int)
    requires
        n >= 0,
    ensures
        0 <= sqrt_floor(n),
        sqrt_floor(n) * sqrt_floor(n) <= n,
        n < (sqrt_floor(n) + 1) * (sqrt_floor(n) + 1),
    decreases n,
{
    if n == 0 {
    } else {
        lemma_sqrt_floor_bounds(n - 1);
        let r = sqrt_floor(n - 1);
        if (r + 1) * (r + 1) <= n {
            assert(n - 1 < (r + 1) * (r + 1));
            assert(n < (r + 2) * (r + 2)) by (nonlinear_arith)
                requires
                    n <= (r + 1) * (r + 1),
                    r >= 0,
            ;
        }
    }
}

/// Any `r >= 0` squeezed between `r^2 <= n < (r+1)^2` is the floor square root.
pub proof fn lemma_sqrt_floor_unique(n: int, r: int)
    requires
        n >= 0,
        r >= 0,
        r * r <= n,
        n < (r + 1) * (r + 1),
    ensures
        r == sqrt_floor(n),
{
    lemma_sqrt_floor_bounds(n);
    let s = sqrt_floor(n);
    assert(r == s) by (nonlinear_arith)
        requires
            r >= 0,
            s >= 0,
            r * r <= n,
            n < (r + 1) * (r + 1),
            s * s <= n,
            n < (s + 1) * (s + 1),
    ;
}

/// Truncating division is odd in its numerator.
pub proof fn lemma_tdiv_neg(a: int, b: int)
    requires
        b > 0,
    ensures
        tdiv(-a, b) == -tdiv(a, b),
{
}

/// Truncating division shrinks magnitudes: a bound on the numerator divides
/// through.
pub proof fn lemma_tdiv_abs_le(a: int, m: int, d: int)
    requires
        -m <= a <= m,
        0 <= m,
        0 < d,
    ensures
        0 <= m / d,
        -(m / d) <= tdiv(a, d) <= m / d,
{
    lemma_div_pos_is_pos(m, d);
    if a >= 0 {
        lemma_div_pos_is_pos(a, d);
        lemma_div_is_ordered(a, m, d);
    } else {
        lemma_div_pos_is_pos(-a, d);
        lemma_div_is_ordered(-a, m, d);
    }
}

/// Magnitude bound for the fixed-point product.
pub proof fn lemma_fmul_abs_le(a: int, b: int, am: int, bm: int)
    requires
        -am <= a <= am,
        -bm <= b <= bm,
        0 <= am,
        0 <= bm,
    ensures
        0 <= (am * bm) / (FX_ONE as int),
        -((am * bm) / (FX_ONE as int)) <= fmul(a, b) <= (am * bm) / (FX_ONE as int),
{
    assert(-(am * bm) <= a * b <= am * bm && 0 <= am * bm) by (nonlinear_arith)
        requires
            -am <= a <= am,
            -bm <= b <= bm,
            0 <= am,
            0 <= bm,
    ;
    lemma_tdiv_abs_le(a * b, am * bm, FX_ONE as int);
}

/// Multiplying by one fixed-point unit is exact.
pub proof fn lemma_fmul_one(a: int)
    ensures
        fmul(a, FX_ONE as int) == a,
        fmul(FX_ONE as int, a) == a,
        fmul(a, -(FX_ONE as int)) == -a,
{
    let s = FX_ONE as int;
    lemma_div_multiples_vanish(a, s);
    lemma_div_multiples_vanish(-a, s);
    assert(a * s == s * a) by (nonlinear_arith);
    assert(a * -s == s * -a) by (nonlinear_arith);
    assert((-a) * s == s * -a) by (nonlinear_arith);
}

/// Multiplying by zero is zero.
pub proof fn lemma_fmul_zero(a: int)
    ensures
        fmul(a, 0) == 0,
        fmul(0, a) == 0,
{
    let s = FX_ONE as int;
    assert(a * 0 == 0) by (nonlinear_arith);
    assert(0 * a == 0) by (nonlinear_arith);
    lemma_div_of0(s);
}

/// The fixed-point product is odd in each argument.
pub proof fn lemma_fmul_neg(a: int, b: int)
    ensures
        fmul(-a, b) == -fmul(a, b),
        fmul(a, -b) == -fmul(a, b),
{
    assert((-a) * b == -(a * b)) by (nonlinear_arith);
    assert(a * (-b) == -(a * b)) by (nonlinear_arith);
    lemma_tdiv_neg(a * b, FX_ONE as int);
}

/// Magnitude of an `i64`, exact even at the minimum value.
pub fn i64_abs(a: i64) -> (r: u64)
    ensures
        a >= 0 ==> r == a,
        a < 0 ==> r == -(a as int),
{
    if a >= 0 {
        a as u64
    } else {
        (-(a as i128)) as u64
    }
}

/// Truncating division on `i128`, via unsigned division on the magnitudes.
pub fn tdiv_i128(a: i128, b: i128) -> (r: i128)
    requires
        b > 0,
        a > i128::MIN,
    ensures
        r == tdiv(a as int, b as int),
{
    if a >= 0 {
        let q = (a as u128) / (b as u128);
        proof {
            lemma_div_pos_is_pos(a as int, b as int);
            lemma_div_nonincreasing(a as int, b as int);
        }
        q as i128
    } else {
        let q = ((-a) as u128) / (b as u128);
        proof {
            lemma_div_pos_is_pos(-(a as int), b as int);
            lemma_div_nonincreasing(-(a as int), b as int);
        }
        -(q as i128)
    }
}

/// Fixed-point multiplication; the caller guarantees the result fits.
pub fn fx_mul(a: i64, b: i64) -> (r: i64)
    requires
        i64::MIN <= fmul(a as int, b as int) <= i64::MAX,
    ensures
        r as int == fmul(a as int, b as int),
{
    proof {
        assert(-85070591730234615865843651857942052864 <= (a as int) * (b as int)
            <= 85070591730234615865843651857942052864) by (nonlinear_arith)
            requires
                i64::MIN <= a <= i64::MAX,
                i64::MIN <= b <= i64::MAX,
        ;
    }
    let p: i128 = (a as i128) * (b as i128);
    let q = tdiv_i128(p, 65536);
    q as i64
}

/// Fixed-point multiplication of unit-range values: the result stays in range.
pub fn fx_mul_unit(a: i64, b: i64) -> (r: i64)
    requires
        -FX_ONE <= a <= FX_ONE,
        -FX_ONE <= b <= FX_ONE,
    ensures
        r as int == fmul(a as int, b as int),
        -FX_ONE <= r <= FX_ONE,
    {
    proof {
        lemma_fmul_abs_le(a as int, b as int, FX_ONE as int, FX_ONE as int);
        lemma_div_multiples_vanish(FX_ONE as int, FX_ONE as int);
        assert((FX_ONE as int) * (FX_ONE as int) == (FX_ONE as int) * (FX_ONE as int));
    }
    fx_mul(a, b)
}

/// Fixed-point division by a positive value; the caller guarantees the
/// result fits.
pub fn fx_div(a: i64, b: i64) -> (r: i64)
    requires
        b > 0,
        i64::MIN <= fdiv(a as int, b as int) <= i64::MAX,
    ensures
        r as int == fdiv(a as int, b as int),
{
    let p: i128 = (a as i128) * 65536;
    let q = tdiv_i128(p, b as i128);
    q as i64
}

/// Integer square root by bisection.
pub fn isqrt64(n: u64) -> (r: u64)
    requires
        n < 4611686018427387904,
    ensures
        r as int == sqrt_floor(n as int),
        (r as int) * (r as int) <= n as int,
        (n as int) < ((r as int) + 1) * ((r as int) + 1),
{
    let mut lo: u64 = 0;
    let mut hi: u64 = 2147483648;
    proof {
        assert(2147483648int * 2147483648int == 4611686018427387904) by (nonlinear_arith);
    }
    while lo + 1 < hi
        invariant
            lo < hi,
            hi <= 2147483648,
            (lo as int) * (lo as int) <= n as int,
            (n as int) < (hi as int) * (hi as int),
        decreases hi - lo,
    {
        let mid = lo + (hi - lo) / 2;
        proof {
            let d = (hi - lo) as int;
            lemma_div_is_ordered(2, d, 2);
            lemma_div_is_strictly_smaller(d, 2);
            lemma_div_pos_is_pos(d, 2);
            assert(2int / 2int == 1);
            assert(lo < mid < hi);
            assert((mid as int) * (mid as int) <= 4611686018427387904) by (nonlinear_arith)
                requires
                    0 <= mid as int,
                    mid as int <= 2147483647,
            ;
        }
        let m2 = mid * mid;
        if m2 <= n {
            lo = mid;
        } else {
            hi = mid;
        }
    }
    proof {
        lemma_sqrt_floor_unique(n as int, lo as int);
    }
    lo
}

/// Square root in fixed point: `sqrt_fx(v)/FX_ONE` approximates the real
/// square root of `v/FX_ONE` from below.
pub fn sqrt_fx(v: i64) -> (r: i64)
    requires
        0 <= v <= 70368744177663,
    ensures
        r as int == sqrt_floor(v * FX_ONE),
        0 <= r,
        (r as int) * (r as int) <= v * FX_ONE,
        v * FX_ONE < ((r as int) + 1) * ((r as int) + 1),
{
    let n: u64 = (v as u64) * 65536;
    let r = isqrt64(n);
    proof {
        assert((r as int) < 2147483648) by (nonlinear_arith)
            requires
                0 <= r as int,
                (r as int) * (r as int) <= n as int,
                (n as int) < 4611686018427387904,
        ;
    }
    r as i64
}

/// Clamp a wide intermediate into the unit interval.
pub fn clamp128_one(v: i128) -> (r: i64)
    ensures
        r as int == clamp_one(v as int),
{
    if v < -65536 {
        -65536
    } else if v > 65536 {
        65536
    } else {
        v as i64
    }
}

} // verus!
