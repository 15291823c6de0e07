//! Fixed-point scalar arithmetic for the ray tracer.
//!
//! Every scalar of the engine (coordinates, colors, matrix entries, ray
//! parameters, material coefficients) is an `i64` counting micro-units:
//! the real value `v` is stored as `v * SCALE`. All operations are exact
//! integer computations; multiplication and division truncate toward zero
//! at the micro-unit, and every result is clamped into
//! `[-FX_MAX, FX_MAX]` so the algebra is total and free of overflow.
use vstd::prelude::*;

verus! {

/// Number of micro-units per whole unit.
pub const SCALE: i64 = 1_000_000;

/// Comparison tolerance: two scalars closer than this are treated as equal.
pub const EPSILON: i64 = 10;

/// Saturation bound of the scalar range (one million whole units).
pub const FX_MAX: i64 = 1_000_000_000_000;

pub open spec fn fx_abs_s(v: int) -> int {
    if v < 0 { -v } else { v }
}

pub open spec fn fx_clamp_s(v: int) -> int {
    if v > FX_MAX { FX_MAX as int } else if v < -(FX_MAX as int) { -(FX_MAX as int) } else { v }
}

/// Division truncating toward zero, as machine division does.
pub open spec fn fx_tdiv_s(a: int, b: int) -> int {
    let q = fx_abs_s(a) / fx_abs_s(b);
    if (a < 0) == (b < 0) { q } else { -q }
}

pub open spec fn fx_add_s(a: int, b: int) -> int {
    fx_clamp_s(a + b)
}

pub open spec fn fx_sub_s(a: int, b: int) -> int {
    fx_clamp_s(a - b)
}

pub open spec fn fx_neg_s(a: int) -> int {
    fx_clamp_s(-a)
}

pub open spec fn fx_mul_s(a: int, b: int) -> int {
    fx_clamp_s(fx_tdiv_s(a * b, SCALE as int))
}

pub open spec fn fx_div_s(a: int, b: int) -> int {
    fx_clamp_s(fx_tdiv_s(a * (SCALE as int), b))
}

/// Approximate equality at the engine's tolerance.
pub open spec fn fx_eq_s(a: int, b: int) -> bool {
    fx_abs_s(a - b) < EPSILON
}

/// Largest `r` with `r * r <= n` (0 for non-positive `n`).
pub open spec fn sqrt_floor_s(n: int) -> int
    decreases n,
{
    if n <= 0 {
        0
    } else {
        let r = sqrt_floor_s(n - 1);
        if (r + 1) * (r + 1) <= n { r + 1 } else { r }
    }
}

/// Square root in fixed point: the real value of `a` is `a / SCALE`, so its
/// root in micro-units is `floor(sqrt(a * SCALE))`.
pub open spec fn fx_sqrt_s(a: int) -> int {
    sqrt_floor_s(a * (SCALE as int))
}

/// Whole-number floor of a scalar (an unscaled integer count).
pub open spec fn fx_floor_s(a: int) -> int {
    a / (SCALE as int)
}

/// Fractional part of a scalar, in micro-units, always in `[0, SCALE)`.
pub open spec fn fx_frac_s(a: int) -> int {
    a % (SCALE as int)
}

pub proof fn lemma_sqrt_floor_bounds(n: int)
    ensures
        sqrt_floor_s(n) >= 0,
        n <= 0 ==> sqrt_floor_s(n) == 0,
        n > 0 ==> sqrt_floor_s(n) * sqrt_floor_s(n) <= n,
        n > 0 ==> n < (sqrt_floor_s(n) + 1) * (sqrt_floor_s(n) + 1),
    decreases n,
{
    if n > 0 {
        lemma_sqrt_floor_bounds(n - 1);
        let r = sqrt_floor_s(n - 1);
        if (r + 1) * (r + 1) <= n {
            if n - 1 > 0 {
                assert(n - 1 < (r + 1) * (r + 1));
                assert(n <= (r + 1) * (r + 1));
                assert((r + 1) * (r + 1) < (r + 2) * (r + 2)) by (nonlinear_arith)
                    requires r >= 0;
            } else {
                assert(r == 0);
                assert((r + 2) * (r + 2) == 4) by (nonlinear_arith)
                    requires r == 0;
            }
        }
    }
}

pub proof fn lemma_sqrt_floor_unique(n: int, r: int)
    requires
        n >= 0,
        r >= 0,
        r * r <= n,
        n < (r + 1) * (r + 1),
    ensures
        r == sqrt_floor_s(n),
{
    let s = sqrt_floor_s(n);
    lemma_sqrt_floor_bounds(n);
    if n == 0 {
        assert(r * r == 0 || r >= 1);
        if r >= 1 {
            assert(r * r >= 1) by (nonlinear_arith)
                requires r >= 1;
            assert(false);
        }
    } else {
        if r < s {
            assert((r + 1) * (r + 1) <= s * s) by (nonlinear_arith)
                requires 0 <= r + 1 && r + 1 <= s;
            assert(false);
        }
        if s < r {
            assert((s + 1) * (s + 1) <= r * r) by (nonlinear_arith)
                requires 0 <= s + 1 && s + 1 <= r;
            assert(false);
        }
    }
}

proof fn lemma_abs_mul(a: int, b: int)
    ensures
        fx_abs_s(a * b) == fx_abs_s(a) * fx_abs_s(b),
{
    assert(fx_abs_s(a * b) == fx_abs_s(a) * fx_abs_s(b)) by (nonlinear_arith);
}

/// Clamp a wide intermediate into the scalar range.
fn fx_clamp128(v: i128) -> (r: i64)
    ensures
        r as int == fx_clamp_s(v as int),
{
    if v > FX_MAX as i128 {
        FX_MAX
    } else if v < -(FX_MAX as i128) {
        -FX_MAX
    } else {
        v as i64
    }
}

/// Magnitude of a scalar as an unsigned wide value.
fn fx_mag128(a: i64) -> (r: u128)
    ensures
        r as int == fx_abs_s(a as int),
{
    if a >= 0 { a as u128 } else { (-(a as i128)) as u128 }
}

pub fn fx_clamp(v: i64) -> (r: i64)
    ensures
        r as int == fx_clamp_s(v as int),
{
    if v > FX_MAX {
        FX_MAX
    } else if v < -FX_MAX {
        -FX_MAX
    } else {
        v
    }
}

pub fn fx_abs(a: i64) -> (r: i64)
    ensures
        r as int == fx_clamp_s(fx_abs_s(a as int)),
{
    if a >= 0 {
        if a > FX_MAX { FX_MAX } else { a }
    } else {
        fx_clamp128(-(a as i128))
    }
}

pub fn fx_add(a: i64, b: i64) -> (r: i64)
    ensures
        r as int == fx_add_s(a as int, b as int),
{
    fx_clamp128(a as i128 + b as i128)
}

pub fn fx_sub(a: i64, b: i64) -> (r: i64)
    ensures
        r as int == fx_sub_s(a as int, b as int),
{
    fx_clamp128(a as i128 - b as i128)
}

pub fn fx_neg(a: i64) -> (r: i64)
    ensures
        r as int == fx_neg_s(a as int),
{
    fx_clamp128(-(a as i128))
}

pub fn fx_mul(a: i64, b: i64) -> (r: i64)
    ensures
        r as int == fx_mul_s(a as int, b as int),
{
    let ma = fx_mag128(a);
    let mb = fx_mag128(b);
    proof {
        lemma_abs_mul(a as int, b as int);
        assert((ma as int) * (mb as int) <= 85070591730234615865843651857942052864)
            by (nonlinear_arith)
            requires
                (ma as int) <= 9223372036854775808,
                (mb as int) <= 9223372036854775808;
    }
    let p: u128 = ma * mb;
    let q: u128 = p / (SCALE as u128);
    proof {
        assert((q as int) <= p as int) by (nonlinear_arith)
            requires q as int == (p as int) / 1_000_000 && (p as int) >= 0;
    }
    let signed: i128 = if (a < 0) != (b < 0) { -(q as i128) } else { q as i128 };
    proof {
        let prod = (a as int) * (b as int);
        if a == 0 || b == 0 {
            assert((a as int) * (b as int) == 0) by (nonlinear_arith)
                requires a as int == 0 || b as int == 0;
        } else if (a < 0) == (b < 0) {
            assert((a as int) * (b as int) > 0) by (nonlinear_arith)
                requires
                    a as int != 0,
                    b as int != 0,
                    ((a as int) < 0) == ((b as int) < 0);
        } else {
            assert((a as int) * (b as int) < 0) by (nonlinear_arith)
                requires
                    a as int != 0,
                    b as int != 0,
                    ((a as int) < 0) != ((b as int) < 0);
        }
        assert(signed as int == fx_tdiv_s(prod, SCALE as int));
    }
    fx_clamp128(signed)
}

pub fn fx_div(a: i64, b: i64) -> (r: i64)
    requires
        b != 0,
    ensures
        r as int == fx_div_s(a as int, b as int),
{
    let ma = fx_mag128(a);
    let mb = fx_mag128(b);
    proof {
        lemma_abs_mul(a as int, SCALE as int);
        assert((ma as int) * 1_000_000 <= 9223372036854775808000000)
            by (nonlinear_arith)
            requires (ma as int) <= 9223372036854775808;
    }
    let p: u128 = ma * (SCALE as u128);
    let q: u128 = p / mb;
    proof {
        assert((q as int) <= p as int) by (nonlinear_arith)
            requires q as int == (p as int) / (mb as int) && (p as int) >= 0 && (mb as int) >= 1;
    }
    let signed: i128 = if (a < 0) != (b < 0) { -(q as i128) } else { q as i128 };
    proof {
        let num = (a as int) * (SCALE as int);
        if a == 0 {
            assert((a as int) * (SCALE as int) == 0) by (nonlinear_arith)
                requires a as int == 0;
        } else if a > 0 {
            assert((a as int) * (SCALE as int) > 0) by (nonlinear_arith)
                requires (a as int) > 0 && SCALE == 1_000_000;
        } else {
            assert((a as int) * (SCALE as int) < 0) by (nonlinear_arith)
                requires (a as int) < 0 && SCALE == 1_000_000;
        }
        assert(signed as int == fx_tdiv_s(num, b as int));
    }
    fx_clamp128(signed)
}

pub fn fx_is_equal(a: i64, b: i64) -> (r: bool)
    ensures
        r == fx_eq_s(a as int, b as int),
{
    let d: i128 = a as i128 - b as i128;
    let m: i128 = if d < 0 { -d } else { d };
    m < EPSILON as i128
}

/// Integer square root of an exact count, by bisection.
pub fn int_sqrt(n: u128) -> (r: i64)
    requires
        n as int <= 9223372036854775807 * 1_000_000,
    ensures
        r as int == sqrt_floor_s(n as int),
        r >= 0,
{
    if n == 0 {
        return 0;
    }
    proof {
        assert((n as int) < 3_100_000_000_000 * 3_100_000_000_000) by (nonlinear_arith)
            requires (n as int) <= 9223372036854775807 * 1_000_000;
    }
    let mut lo: u128 = 0;
    let mut hi: u128 = 3_100_000_000_000;
    while lo + 1 < hi
        invariant
            lo < hi,
            (lo as int) * (lo as int) <= n as int,
            (n as int) < (hi as int) * (hi as int),
            hi <= 3_100_000_000_000,
        decreases hi - lo,
    {
        let mid = lo + (hi - lo) / 2;
        assert(lo < mid && mid < hi);
        proof {
            assert((mid as int) * (mid as int) <= 3_100_000_000_000 * 3_100_000_000_000)
                by (nonlinear_arith)
                requires 0 <= mid as int && (mid as int) <= 3_100_000_000_000;
        }
        let sq: u128 = mid * mid;
        if sq <= n {
            lo = mid;
        } else {
            hi = mid;
        }
    }
    proof {
        assert(hi == lo + 1);
        lemma_sqrt_floor_unique(n as int, lo as int);
    }
    lo as i64
}

pub fn fx_sqrt(a: i64) -> (r: i64)
    ensures
        r as int == fx_sqrt_s(a as int),
        r >= 0,
{
    if a <= 0 {
        proof {
            assert(a as int * (SCALE as int) <= 0) by (nonlinear_arith)
                requires (a as int) <= 0;
            lemma_sqrt_floor_bounds(a as int * (SCALE as int));
        }
        return 0;
    }
    proof {
        assert((a as int) * (SCALE as int) <= 9223372036854775807 * 1_000_000)
            by (nonlinear_arith)
            requires 0 < (a as int) <= 9223372036854775807 && SCALE == 1_000_000;
        assert((a as int) * (SCALE as int) > 0) by (nonlinear_arith)
            requires (a as int) > 0 && SCALE == 1_000_000;
    }
    let n: u128 = (a as u128) * (SCALE as u128);
    int_sqrt(n)
}

/// Fixed-point power with a whole-number exponent, by repeated
/// multiplication; the zeroth power is one.
pub open spec fn fx_powi_s(base: int, n: int) -> int
    decreases n,
{
    if n <= 0 {
        SCALE as int
    } else {
        fx_mul_s(fx_powi_s(base, n - 1), base)
    }
}

pub fn fx_powi(base: i64, n: i64) -> (r: i64)
    ensures
        r as int == fx_powi_s(base as int, n as int),
{
    if n <= 0 {
        return SCALE;
    }
    let mut acc: i64 = SCALE;
    let mut i: i64 = 0;
    while i < n
        invariant
            0 <= i <= n,
            acc as int == fx_powi_s(base as int, i as int),
        decreases n - i,
    {
        acc = fx_mul(acc, base);
        i = i + 1;
    }
    acc
}

/// Multiplying by one whole unit gives the value back, within the clamp
/// range.
pub proof fn lemma_fx_mul_one(v: int)
    requires
        fx_abs_s(v) <= FX_MAX,
    ensures
        fx_mul_s(SCALE as int, v) == v,
{
    let s = SCALE as int;
    if v >= 0 {
        assert(s * v >= 0) by (nonlinear_arith)
            requires s == 1_000_000 && v >= 0;
        vstd::arithmetic::div_mod::lemma_div_multiples_vanish(v, s);
        assert(fx_abs_s(s * v) / fx_abs_s(s) == v);
    } else {
        assert(s * v < 0) by (nonlinear_arith)
            requires s == 1_000_000 && v < 0;
        assert(-(s * v) == s * (-v)) by (nonlinear_arith);
        vstd::arithmetic::div_mod::lemma_div_multiples_vanish(-v, s);
        assert(fx_abs_s(s * v) / fx_abs_s(s) == -v);
    }
}

/// Multiplying by zero gives zero.
pub proof fn lemma_fx_mul_zero(v: int)
    ensures
        fx_mul_s(0, v) == 0,
        fx_mul_s(v, 0) == 0,
{
    let s = SCALE as int;
    assert(0 * v == 0) by (nonlinear_arith);
    assert(v * 0 == 0) by (nonlinear_arith);
    vstd::arithmetic::div_mod::lemma_div_multiples_vanish(0, s);
    assert(s * 0 == 0) by (nonlinear_arith);
    assert(fx_abs_s(0) / fx_abs_s(s) == 0);
}

/// Truncating division leaves a remainder smaller than the divisor and of
/// the numerator's sign.
pub proof fn lemma_tdiv_rem(a: int, m: int)
    requires
        m > 0,
    ensures
        fx_abs_s(a - m * fx_tdiv_s(a, m)) < m,
        a * (a - m * fx_tdiv_s(a, m)) >= 0,
{
    if a >= 0 {
        vstd::arithmetic::div_mod::lemma_fundamental_div_mod(a, m);
        assert(a - m * fx_tdiv_s(a, m) == a % m);
        assert(a * (a % m) >= 0) by (nonlinear_arith)
            requires a >= 0 && a % m >= 0;
    } else {
        let q = (-a) / m;
        vstd::arithmetic::div_mod::lemma_fundamental_div_mod(-a, m);
        assert(fx_tdiv_s(a, m) == -q);
        assert(a - m * (-q) == -((-a) % m)) by (nonlinear_arith)
            requires -a == m * q + (-a) % m;
        assert(a - m * fx_tdiv_s(a, m) == -((-a) % m));
        assert(a * (-((-a) % m)) >= 0) by (nonlinear_arith)
            requires a < 0 && (-a) % m >= 0;
    }
}

/// Dividing a scalar by a bound at least its magnitude keeps the quotient
/// within one unit.
pub proof fn lemma_tdiv_bound(a: int, m: int)
    requires
        m > 0,
        fx_abs_s(a) <= m,
    ensures
        fx_abs_s(fx_tdiv_s(a * (SCALE as int), m)) <= SCALE as int,
{
    let s = SCALE as int;
    assert(fx_abs_s(a * s) == fx_abs_s(a) * s) by (nonlinear_arith)
        requires s > 0;
    assert(fx_abs_s(a) * s <= m * s) by (nonlinear_arith)
        requires fx_abs_s(a) <= m && s > 0;
    assert(m * s == s * m) by (nonlinear_arith);
    vstd::arithmetic::div_mod::lemma_div_is_ordered(fx_abs_s(a) * s, m * s, m);
    vstd::arithmetic::div_mod::lemma_div_multiples_vanish(s, m);
    assert((m * s) / m == s);
    assert(fx_abs_s(a * s) / m <= s);
}

/// A square in fixed point is never negative.
pub proof fn lemma_fx_square_nonneg(x: int)
    ensures
        fx_mul_s(x, x) >= 0,
{
    assert(x * x >= 0) by (nonlinear_arith);
    vstd::arithmetic::div_mod::lemma_div_is_ordered(0, x * x, SCALE as int);
    vstd::arithmetic::div_mod::lemma_div_multiples_vanish(0, SCALE as int);
    assert((SCALE as int) * 0 == 0) by (nonlinear_arith);
}

/// Division by a positive scalar keeps the order of the numerators.
pub proof fn lemma_fx_div_monotone(a: int, b: int, d: int)
    requires
        a <= b,
        d > 0,
    ensures
        fx_div_s(a, d) <= fx_div_s(b, d),
{
    let s = SCALE as int;
    assert(a * s <= b * s) by (nonlinear_arith)
        requires a <= b && s > 0;
    let an = a * s;
    let bn = b * s;
    if an >= 0 {
        vstd::arithmetic::div_mod::lemma_div_is_ordered(an, bn, d);
        assert(fx_tdiv_s(an, d) <= fx_tdiv_s(bn, d));
    } else if bn < 0 {
        vstd::arithmetic::div_mod::lemma_div_is_ordered(-bn, -an, d);
        assert(fx_tdiv_s(an, d) <= fx_tdiv_s(bn, d));
    } else {
        vstd::arithmetic::div_mod::lemma_div_is_ordered(0, -an, d);
        vstd::arithmetic::div_mod::lemma_div_is_ordered(0, bn, d);
        vstd::arithmetic::div_mod::lemma_div_multiples_vanish(0, d);
        assert(d * 0 == 0) by (nonlinear_arith);
        assert(fx_tdiv_s(an, d) <= 0 <= fx_tdiv_s(bn, d));
    }
}

proof fn lemma_neg_parity(f: int)
    ensures
        ((-f) % 2 == 0) == (f % 2 == 0),
{
    vstd::arithmetic::div_mod::lemma_fundamental_div_mod(f, 2);
    let q = f / 2;
    let r = f % 2;
    if r == 0 {
        assert(-f == 2 * (-q) + 0) by (nonlinear_arith)
            requires f == 2 * q;
        vstd::arithmetic::div_mod::lemma_fundamental_div_mod_converse(-f, 2, -q, 0);
    } else {
        assert(-f == 2 * (-q - 1) + 1) by (nonlinear_arith)
            requires f == 2 * q + r && r == 1;
        vstd::arithmetic::div_mod::lemma_fundamental_div_mod_converse(-f, 2, -q - 1, 1);
    }
}

/// Whether a whole-number count is even; used by the periodic patterns.
pub fn fx_even(v: i64) -> (r: bool)
    ensures
        r == ((v as int) % 2 == 0),
{
    let m = fx_mag128(v);
    proof {
        if v < 0 {
            lemma_neg_parity(v as int);
        }
    }
    m % 2 == 0
}

/// Whole-number floor of a scalar: `fx_floor(2_500_000) == 2`,
/// `fx_floor(-2_500_000) == -3`.
pub fn fx_floor(a: i64) -> (r: i64)
    ensures
        r as int == fx_floor_s(a as int),
{
    if a >= 0 {
        let q = (a as u64) / (SCALE as u64);
        q as i64
    } else {
        let m: u128 = (-(a as i128)) as u128;
        let q: u128 = m / (SCALE as u128);
        let rem: u128 = m % (SCALE as u128);
        proof {
            vstd::arithmetic::div_mod::lemma_fundamental_div_mod(m as int, SCALE as int);
            vstd::arithmetic::div_mod::lemma_fundamental_div_mod(a as int, SCALE as int);
            let fq = (a as int) / (SCALE as int);
            let fr = (a as int) % (SCALE as int);
            assert(0 <= fr < SCALE as int);
            if fr == 0 {
                assert(m as int == (SCALE as int) * (-fq)) by (nonlinear_arith)
                    requires
                        m as int == -(a as int),
                        a as int == (SCALE as int) * fq;
                vstd::arithmetic::div_mod::lemma_div_multiples_vanish(-fq, SCALE as int);
                assert(q as int == -fq);
            } else {
                assert(m as int == (-fq - 1) * (SCALE as int) + ((SCALE as int) - fr))
                    by (nonlinear_arith)
                    requires
                        m as int == -(a as int),
                        a as int == (SCALE as int) * fq + fr;
                vstd::arithmetic::div_mod::lemma_fundamental_div_mod_converse(
                    m as int, SCALE as int, -fq - 1, (SCALE as int) - fr);
                assert(q as int == -fq - 1);
                assert(rem as int == (SCALE as int) - fr);
                assert(rem != 0);
            }
        }
        if rem == 0 {
            -(q as i64)
        } else {
            -(q as i64) - 1
        }
    }
}

/// Fractional part of a scalar in micro-units: `a - floor(a) * SCALE`.
pub fn fx_frac(a: i64) -> (r: i64)
    ensures
        r as int == fx_frac_s(a as int),
        0 <= r < SCALE,
{
    let f = fx_floor(a);
    proof {
        vstd::arithmetic::div_mod::lemma_fundamental_div_mod(a as int, SCALE as int);
    }
    let wide: i128 = (a as i128) - (f as i128) * (SCALE as i128);
    proof {
        assert(wide as int == (a as int) % (SCALE as int)) by (nonlinear_arith)
            requires
                wide as int == (a as int) - (f as int) * (SCALE as int),
                a as int == (SCALE as int) * ((a as int) / (SCALE as int)) + (a as int) % (SCALE as int),
                f as int == (a as int) / (SCALE as int);
    }
    wide as i64
}

} // verus!
