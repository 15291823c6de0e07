//! The 4-component value of the engine: points (`w == SCALE`), vectors
//! (`w == 0`) and colors share one representation, with all components in
//! fixed-point micro-units.
use vstd::prelude::*;
use crate::fx::SCALE;
use crate::fx::fx_add_s;
use crate::fx::fx_sub_s;
use crate::fx::fx_neg_s;
use crate::fx::fx_mul_s;
use crate::fx::fx_div_s;
use crate::fx::fx_sqrt_s;
use crate::fx::fx_eq_s;
use crate::fx::fx_add;
use crate::fx::fx_sub;
use crate::fx::fx_neg;
use crate::fx::fx_mul;
use crate::fx::fx_div;
use crate::fx::fx_sqrt;
use crate::fx::fx_is_equal;
use crate::fx::fx_clamp_s;
use crate::fx::fx_abs_s;
use crate::fx::sqrt_floor_s;
use crate::fx::fx_clamp;
use crate::fx::int_sqrt;
use crate::fx::FX_MAX;

verus! {

#[derive(Debug, Copy, Clone, PartialEq, Eq, Structural)]
pub enum TuplesEnum {
    Tuple,
    Point,
    Vector,
    Color,
}

impl Default for TuplesEnum {
    fn default() -> (r: Self)
        ensures
            r == TuplesEnum::Tuple,
    {
        TuplesEnum::Tuple
    }
}

#[derive(Debug, Copy, Clone, PartialEq, Eq, Structural)]
pub struct Tuples {
    pub kind: TuplesEnum,
    pub x: i64,
    pub y: i64,
    pub z: i64,
    pub w: i64,
}

impl Default for Tuples {
    fn default() -> (r: Self)
        ensures
            r == (Tuples { kind: TuplesEnum::Tuple, x: 0, y: 0, z: 0, w: 0 }),
    {
        Tuples { kind: TuplesEnum::Tuple, x: 0, y: 0, z: 0, w: 0 }
    }
}

/// Dot product in fixed point, accumulated left to right.
pub open spec fn dot_s(a: Tuples, b: Tuples) -> int {
    fx_add_s(
        fx_add_s(
            fx_add_s(fx_mul_s(a.x as int, b.x as int), fx_mul_s(a.y as int, b.y as int)),
            fx_mul_s(a.z as int, b.z as int),
        ),
        fx_mul_s(a.w as int, b.w as int),
    )
}

/// Squared length accumulated as the dot product of a tuple with itself.
pub open spec fn magnitude_s(a: Tuples) -> int {
    fx_sqrt_s(dot_s(a, a))
}

/// Exact squared length in squared micro-units, free of truncation.
pub open spec fn norm_sq_s(a: Tuples) -> int {
    (a.x as int) * (a.x as int) + (a.y as int) * (a.y as int)
        + (a.z as int) * (a.z as int) + (a.w as int) * (a.w as int)
}

/// Exact Euclidean length in micro-units, rounded down.
pub open spec fn norm_units_s(a: Tuples) -> int {
    sqrt_floor_s(norm_sq_s(a))
}

/// The largest component magnitude.
pub open spec fn max_abs_s(a: Tuples) -> int {
    let mx = fx_abs_s(a.x as int);
    let my = fx_abs_s(a.y as int);
    let mz = fx_abs_s(a.z as int);
    let mw = fx_abs_s(a.w as int);
    let m1 = if mx >= my { mx } else { my };
    let m2 = if m1 >= mz { m1 } else { mz };
    if m2 >= mw { m2 } else { mw }
}

/// Every component within the scalar range.
pub open spec fn tup_in_range_s(a: Tuples) -> bool {
    &&& fx_abs_s(a.x as int) <= FX_MAX
    &&& fx_abs_s(a.y as int) <= FX_MAX
    &&& fx_abs_s(a.z as int) <= FX_MAX
    &&& fx_abs_s(a.w as int) <= FX_MAX
}

/// Every component brought into the scalar range.
pub open spec fn clamp_tup_s(a: Tuples) -> Tuples {
    Tuples {
        kind: a.kind,
        x: fx_clamp_s(a.x as int) as i64,
        y: fx_clamp_s(a.y as int) as i64,
        z: fx_clamp_s(a.z as int) as i64,
        w: fx_clamp_s(a.w as int) as i64,
    }
}

/// All components doubled; exact while they are below one unit.
pub open spec fn double_tup_s(a: Tuples) -> Tuples {
    Tuples {
        kind: a.kind,
        x: (2 * (a.x as int)) as i64,
        y: (2 * (a.y as int)) as i64,
        z: (2 * (a.z as int)) as i64,
        w: (2 * (a.w as int)) as i64,
    }
}

/// Double a short tuple, at most `n` times, until its largest component
/// reaches one unit; doubling is exact and keeps the direction.
pub open spec fn upscale_steps_s(a: Tuples, n: int) -> Tuples
    decreases n,
{
    if n <= 0 || max_abs_s(a) >= SCALE || max_abs_s(a) == 0 {
        a
    } else {
        upscale_steps_s(double_tup_s(a), n - 1)
    }
}

/// Component-wise approximate equality; the kind tag is not compared.
pub open spec fn tuples_eq_s(a: Tuples, b: Tuples) -> bool {
    &&& fx_eq_s(a.x as int, b.x as int)
    &&& fx_eq_s(a.y as int, b.y as int)
    &&& fx_eq_s(a.z as int, b.z as int)
    &&& fx_eq_s(a.w as int, b.w as int)
}

/// Component-wise sum; the kind of the left operand is kept.
pub open spec fn add_tup_s(a: Tuples, b: Tuples) -> Tuples {
    Tuples {
        kind: a.kind,
        x: fx_add_s(a.x as int, b.x as int) as i64,
        y: fx_add_s(a.y as int, b.y as int) as i64,
        z: fx_add_s(a.z as int, b.z as int) as i64,
        w: fx_add_s(a.w as int, b.w as int) as i64,
    }
}

pub open spec fn sub_tup_s(a: Tuples, b: Tuples) -> Tuples {
    Tuples {
        kind: a.kind,
        x: fx_sub_s(a.x as int, b.x as int) as i64,
        y: fx_sub_s(a.y as int, b.y as int) as i64,
        z: fx_sub_s(a.z as int, b.z as int) as i64,
        w: fx_sub_s(a.w as int, b.w as int) as i64,
    }
}

pub open spec fn neg_tup_s(a: Tuples) -> Tuples {
    Tuples {
        kind: a.kind,
        x: fx_neg_s(a.x as int) as i64,
        y: fx_neg_s(a.y as int) as i64,
        z: fx_neg_s(a.z as int) as i64,
        w: fx_neg_s(a.w as int) as i64,
    }
}

/// Component-wise (Hadamard) product; the kind of the left operand is kept.
pub open spec fn mul_tup_s(a: Tuples, b: Tuples) -> Tuples {
    Tuples {
        kind: a.kind,
        x: fx_mul_s(a.x as int, b.x as int) as i64,
        y: fx_mul_s(a.y as int, b.y as int) as i64,
        z: fx_mul_s(a.z as int, b.z as int) as i64,
        w: fx_mul_s(a.w as int, b.w as int) as i64,
    }
}

pub open spec fn scale_tup_s(a: Tuples, k: int) -> Tuples {
    Tuples {
        kind: a.kind,
        x: fx_mul_s(a.x as int, k) as i64,
        y: fx_mul_s(a.y as int, k) as i64,
        z: fx_mul_s(a.z as int, k) as i64,
        w: fx_mul_s(a.w as int, k) as i64,
    }
}

pub open spec fn cross_s(a: Tuples, b: Tuples) -> Tuples {
    Tuples {
        kind: TuplesEnum::Vector,
        x: fx_sub_s(fx_mul_s(a.y as int, b.z as int), fx_mul_s(a.z as int, b.y as int)) as i64,
        y: fx_sub_s(fx_mul_s(a.z as int, b.x as int), fx_mul_s(a.x as int, b.z as int)) as i64,
        z: fx_sub_s(fx_mul_s(a.x as int, b.y as int), fx_mul_s(a.y as int, b.x as int)) as i64,
        w: 0,
    }
}

/// Scaling to unit length. The components are brought into the scalar
/// range, short tuples are doubled up to the unit scale (exactly, keeping
/// the direction), and each component is divided by the exact length; a
/// tuple of length zero is left as it is.
pub open spec fn normalize_s(a: Tuples) -> Tuples {
    let c = clamp_tup_s(a);
    if norm_sq_s(c) == 0 {
        a
    } else {
        let u = upscale_steps_s(c, 21);
        let m = norm_units_s(u);
        Tuples {
            kind: a.kind,
            x: fx_div_s(u.x as int, m) as i64,
            y: fx_div_s(u.y as int, m) as i64,
            z: fx_div_s(u.z as int, m) as i64,
            w: fx_div_s(u.w as int, m) as i64,
        }
    }
}

spec fn two_pow_s(n: int) -> int
    decreases n,
{
    if n <= 0 { 1 } else { 2 * two_pow_s(n - 1) }
}

proof fn lemma_norm_sq_max(a: Tuples)
    ensures
        norm_sq_s(a) >= max_abs_s(a) * max_abs_s(a),
        norm_sq_s(a) >= 0,
        norm_sq_s(a) != 0 ==> max_abs_s(a) >= 1,
        norm_sq_s(a) == 0 ==> (a.x as int == 0 && a.y as int == 0 && a.z as int == 0
            && a.w as int == 0),
        max_abs_s(a) >= 1 ==> norm_sq_s(a) >= 1,
        (a.x as int) * (a.x as int) <= norm_sq_s(a),
        (a.y as int) * (a.y as int) <= norm_sq_s(a),
        (a.z as int) * (a.z as int) <= norm_sq_s(a),
        (a.w as int) * (a.w as int) <= norm_sq_s(a),
{
    let x = a.x as int;
    let y = a.y as int;
    let z = a.z as int;
    let w = a.w as int;
    assert(x * x == fx_abs_s(x) * fx_abs_s(x) && x * x >= 0) by (nonlinear_arith);
    assert(y * y == fx_abs_s(y) * fx_abs_s(y) && y * y >= 0) by (nonlinear_arith);
    assert(z * z == fx_abs_s(z) * fx_abs_s(z) && z * z >= 0) by (nonlinear_arith);
    assert(w * w == fx_abs_s(w) * fx_abs_s(w) && w * w >= 0) by (nonlinear_arith);
    assert(x * x == 0 ==> x == 0) by (nonlinear_arith);
    assert(y * y == 0 ==> y == 0) by (nonlinear_arith);
    assert(z * z == 0 ==> z == 0) by (nonlinear_arith);
    assert(w * w == 0 ==> w == 0) by (nonlinear_arith);
    if norm_sq_s(a) != 0 && max_abs_s(a) == 0 {
        assert(false);
    }
    if max_abs_s(a) >= 1 {
        assert(norm_sq_s(a) >= max_abs_s(a) * max_abs_s(a) >= 1) by (nonlinear_arith)
            requires
                norm_sq_s(a) >= max_abs_s(a) * max_abs_s(a),
                max_abs_s(a) >= 1;
    }
}

proof fn lemma_double_exact(a: Tuples)
    requires
        tup_in_range_s(a),
        max_abs_s(a) < SCALE,
    ensures
        double_tup_s(a).x as int == 2 * (a.x as int),
        double_tup_s(a).y as int == 2 * (a.y as int),
        double_tup_s(a).z as int == 2 * (a.z as int),
        double_tup_s(a).w as int == 2 * (a.w as int),
        max_abs_s(double_tup_s(a)) == 2 * max_abs_s(a),
        tup_in_range_s(double_tup_s(a)),
        double_tup_s(a).kind == a.kind,
{
    assert(FX_MAX == 1_000_000_000_000i64);
}

proof fn lemma_upscale_props(a: Tuples, n: int)
    requires
        tup_in_range_s(a),
    ensures
        tup_in_range_s(upscale_steps_s(a, n)),
        upscale_steps_s(a, n).kind == a.kind,
        max_abs_s(a) >= 1 ==> (max_abs_s(upscale_steps_s(a, n)) >= SCALE
            || max_abs_s(upscale_steps_s(a, n)) >= two_pow_s(n) * max_abs_s(a)),
        max_abs_s(upscale_steps_s(a, n)) >= max_abs_s(a),
    decreases n,
{
    if n <= 0 || max_abs_s(a) >= SCALE || max_abs_s(a) == 0 {
    } else {
        lemma_double_exact(a);
        lemma_upscale_props(double_tup_s(a), n - 1);
        assert(two_pow_s(n) == 2 * two_pow_s(n - 1));
        if max_abs_s(a) >= 1 {
            let rec = upscale_steps_s(double_tup_s(a), n - 1);
            if max_abs_s(rec) < SCALE {
                assert(max_abs_s(rec) >= two_pow_s(n - 1) * (2 * max_abs_s(a)));
                assert(two_pow_s(n - 1) * (2 * max_abs_s(a)) == two_pow_s(n) * max_abs_s(a))
                    by (nonlinear_arith)
                    requires two_pow_s(n) == 2 * two_pow_s(n - 1);
            }
        }
    }
}

proof fn lemma_two_pow_21()
    ensures
        two_pow_s(21) >= SCALE as int,
{
    reveal_with_fuel(two_pow_s, 25);
    assert(two_pow_s(21) == 2097152);
}

/// One component's share of the normalization: the quotient against the
/// exact length, its remainder, and the ring identity tying its square to
/// the component's.
proof fn lemma_norm_component(ui: int, m: int)
    requires
        m >= SCALE as int,
        fx_abs_s(ui) <= m,
    ensures
        ({
            let s = SCALE as int;
            let t = crate::fx::fx_tdiv_s(ui * s, m);
            let e = ui * s - m * t;
            &&& fx_div_s(ui, m) == t
            &&& fx_abs_s(t) <= s
            &&& 0 <= ui * e <= m * m
            &&& 0 <= e * e <= m * m
            &&& m * m * (t * t) == s * s * (ui * ui) - 2 * s * (ui * e) + e * e
        }),
{
    let s = SCALE as int;
    assert(SCALE == 1_000_000i64);
    let t = crate::fx::fx_tdiv_s(ui * s, m);
    let e = ui * s - m * t;
    crate::fx::lemma_tdiv_bound(ui, m);
    crate::fx::lemma_tdiv_rem(ui * s, m);
    assert(FX_MAX == 1_000_000_000_000i64);
    assert(fx_clamp_s(t) == t);
    assert(ui * e >= 0) by (nonlinear_arith)
        requires (ui * s) * e >= 0 && s > 0;
    assert(ui * e <= m * m) by (nonlinear_arith)
        requires fx_abs_s(ui) <= m && fx_abs_s(e) < m && m > 0;
    assert(0 <= e * e <= m * m) by (nonlinear_arith)
        requires fx_abs_s(e) < m && m > 0;
    assert((m * t) * (m * t) == (ui * s - e) * (ui * s - e));
    assert((ui * s - e) * (ui * s - e) == (ui * s) * (ui * s) - 2 * ((ui * s) * e) + e * e)
        by (nonlinear_arith);
    assert((m * t) * (m * t) == m * m * (t * t)) by (nonlinear_arith);
    assert((ui * s) * (ui * s) == s * s * (ui * ui)) by (nonlinear_arith);
    assert(2 * ((ui * s) * e) == 2 * s * (ui * e)) by (nonlinear_arith);
    assert(m * m * (t * t) == (ui * s) * (ui * s) - 2 * ((ui * s) * e) + e * e);
    assert(m * m * (t * t) == s * s * (ui * ui) - 2 * s * (ui * e) + e * e);
}

/// Normalizing any tuple with a nonzero length (after clamping into the
/// scalar range) yields a tuple of unit length at the engine tolerance.
pub proof fn lemma_normalize_unit(v: Tuples)
    requires
        norm_sq_s(clamp_tup_s(v)) != 0,
    ensures
        fx_abs_s(norm_units_s(normalize_s(v)) - SCALE as int) < crate::fx::EPSILON,
{
    let s = SCALE as int;
    assert(SCALE == 1_000_000i64);
    let c = clamp_tup_s(v);
    assert(tup_in_range_s(c));
    lemma_norm_sq_max(c);
    lemma_upscale_props(c, 21);
    lemma_two_pow_21();
    let u = upscale_steps_s(c, 21);
    assert(max_abs_s(u) >= s) by (nonlinear_arith)
        requires
            max_abs_s(u) >= s || max_abs_s(u) >= two_pow_s(21) * max_abs_s(c),
            two_pow_s(21) >= s,
            max_abs_s(c) >= 1;
    lemma_norm_sq_max(u);
    let q = norm_sq_s(u);
    assert(q >= s * s) by (nonlinear_arith)
        requires q >= max_abs_s(u) * max_abs_s(u) && max_abs_s(u) >= s && s > 0;
    let m = sqrt_floor_s(q);
    crate::fx::lemma_sqrt_floor_bounds(q);
    assert(m >= s) by (nonlinear_arith)
        requires m >= 0 && q < (m + 1) * (m + 1) && q >= s * s && s > 0;
    assert(m * m > 0) by (nonlinear_arith)
        requires m >= 1;
    let ux = u.x as int;
    let uy = u.y as int;
    let uz = u.z as int;
    let uw = u.w as int;
    assert(fx_abs_s(ux) <= m) by (nonlinear_arith)
        requires ux * ux <= q && q < (m + 1) * (m + 1) && m >= 0;
    assert(fx_abs_s(uy) <= m) by (nonlinear_arith)
        requires uy * uy <= q && q < (m + 1) * (m + 1) && m >= 0;
    assert(fx_abs_s(uz) <= m) by (nonlinear_arith)
        requires uz * uz <= q && q < (m + 1) * (m + 1) && m >= 0;
    assert(fx_abs_s(uw) <= m) by (nonlinear_arith)
        requires uw * uw <= q && q < (m + 1) * (m + 1) && m >= 0;
    lemma_norm_component(ux, m);
    lemma_norm_component(uy, m);
    lemma_norm_component(uz, m);
    lemma_norm_component(uw, m);
    let tx = crate::fx::fx_tdiv_s(ux * s, m);
    let ty = crate::fx::fx_tdiv_s(uy * s, m);
    let tz = crate::fx::fx_tdiv_s(uz * s, m);
    let tw = crate::fx::fx_tdiv_s(uw * s, m);
    let ex = ux * s - m * tx;
    let ey = uy * s - m * ty;
    let ez = uz * s - m * tz;
    let ew = uw * s - m * tw;
    let res = normalize_s(v);
    assert(FX_MAX == 1_000_000_000_000i64);
    assert(res.x as int == tx && res.y as int == ty && res.z as int == tz && res.w as int == tw);
    let bigr = norm_sq_s(res);
    let tsum = ux * ex + uy * ey + uz * ez + uw * ew;
    let wsum = ex * ex + ey * ey + ez * ez + ew * ew;
    assert(m * m * bigr == m * m * (tx * tx) + m * m * (ty * ty) + m * m * (tz * tz) + m * m * (tw * tw))
        by (nonlinear_arith)
        requires bigr == tx * tx + ty * ty + tz * tz + tw * tw;
    assert(s * s * q == s * s * (ux * ux) + s * s * (uy * uy) + s * s * (uz * uz) + s * s * (uw * uw))
        by (nonlinear_arith)
        requires q == ux * ux + uy * uy + uz * uz + uw * uw;
    assert(2 * s * tsum == 2 * s * (ux * ex) + 2 * s * (uy * ey) + 2 * s * (uz * ez) + 2 * s * (uw * ew))
        by (nonlinear_arith)
        requires tsum == ux * ex + uy * ey + uz * ez + uw * ew;
    assert(m * m * bigr == s * s * q - 2 * s * tsum + wsum);
    assert(0 <= tsum <= 4 * (m * m));
    assert(0 <= wsum <= 4 * (m * m));
    assert(2 * s * tsum >= 0) by (nonlinear_arith)
        requires tsum >= 0 && s > 0;
    // lower bound: the quotient squares cannot fall short of one
    assert(2 * s * tsum <= 8 * s * (m * m)) by (nonlinear_arith)
        requires 0 <= tsum <= 4 * (m * m) && s > 0;
    assert(s * s * q >= s * s * (m * m)) by (nonlinear_arith)
        requires q >= m * m && s > 0;
    assert(m * m * bigr >= (m * m) * (s * s - 8 * s)) by (nonlinear_arith)
        requires
            m * m * bigr == s * s * q - 2 * s * tsum + wsum,
            s * s * q >= s * s * (m * m),
            2 * s * tsum <= 8 * s * (m * m),
            wsum >= 0;
    assert(bigr >= s * s - 8 * s) by (nonlinear_arith)
        requires m * m * bigr >= (m * m) * (s * s - 8 * s) && m * m > 0;
    // upper bound: nor exceed it
    assert(q <= m * m + 2 * m) by (nonlinear_arith)
        requires q < (m + 1) * (m + 1);
    assert(s * s * q <= s * s * (m * m) + 2 * (s * s) * m) by (nonlinear_arith)
        requires q <= m * m + 2 * m && s > 0;
    assert(2 * (s * s) * m <= 2 * s * (m * m)) by (nonlinear_arith)
        requires m >= s && s > 0;
    assert(m * m * bigr <= (m * m) * (s * s + 2 * s + 4)) by (nonlinear_arith)
        requires
            m * m * bigr == s * s * q - 2 * s * tsum + wsum,
            s * s * q <= s * s * (m * m) + 2 * (s * s) * m,
            2 * (s * s) * m <= 2 * s * (m * m),
            2 * s * tsum >= 0,
            wsum <= 4 * (m * m);
    assert(bigr <= s * s + 2 * s + 4) by (nonlinear_arith)
        requires m * m * bigr <= (m * m) * (s * s + 2 * s + 4) && m * m > 0;
    // the exact length of the result is within five micro-units of one
    let g = sqrt_floor_s(bigr);
    crate::fx::lemma_sqrt_floor_bounds(bigr);
    assert(g >= s - 5) by (nonlinear_arith)
        requires g >= 0 && bigr < (g + 1) * (g + 1) && bigr >= s * s - 8 * s && s == 1_000_000;
    assert(g <= s + 1) by (nonlinear_arith)
        requires g >= 0 && g * g <= bigr && bigr <= s * s + 2 * s + 4 && s == 1_000_000;
}

impl Tuples {
    pub open spec fn is_point_s(self) -> bool {
        self.kind == TuplesEnum::Point
    }

    pub open spec fn is_vector_s(self) -> bool {
        self.kind == TuplesEnum::Vector
    }

    pub open spec fn kind_s(self) -> TuplesEnum {
        self.kind
    }

    pub fn new(x: i64, y: i64, z: i64, w: i64) -> (r: Tuples)
        ensures
            r == (Tuples { kind: TuplesEnum::Tuple, x, y, z, w }),
    {
        Tuples { kind: TuplesEnum::Tuple, x, y, z, w }
    }

    pub fn point(x: i64, y: i64, z: i64) -> (r: Tuples)
        ensures
            r == (Tuples { kind: TuplesEnum::Point, x, y, z, w: SCALE }),
    {
        Tuples { kind: TuplesEnum::Point, x, y, z, w: SCALE }
    }

    pub fn vector(x: i64, y: i64, z: i64) -> (r: Tuples)
        ensures
            r == (Tuples { kind: TuplesEnum::Vector, x, y, z, w: 0 }),
    {
        Tuples { kind: TuplesEnum::Vector, x, y, z, w: 0 }
    }

    pub fn color(x: i64, y: i64, z: i64) -> (r: Tuples)
        ensures
            r == (Tuples { kind: TuplesEnum::Color, x, y, z, w: 0 }),
    {
        Tuples { kind: TuplesEnum::Color, x, y, z, w: 0 }
    }

    pub fn dot(v1: &Tuples, v2: &Tuples) -> (r: i64)
        ensures
            r as int == dot_s(*v1, *v2),
    {
        let xx = fx_mul(v1.x, v2.x);
        let yy = fx_mul(v1.y, v2.y);
        let zz = fx_mul(v1.z, v2.z);
        let ww = fx_mul(v1.w, v2.w);
        fx_add(fx_add(fx_add(xx, yy), zz), ww)
    }

    pub fn cross(v1: &Tuples, v2: &Tuples) -> (r: Tuples)
        ensures
            r == cross_s(*v1, *v2),
    {
        Tuples::vector(
            fx_sub(fx_mul(v1.y, v2.z), fx_mul(v1.z, v2.y)),
            fx_sub(fx_mul(v1.z, v2.x), fx_mul(v1.x, v2.z)),
            fx_sub(fx_mul(v1.x, v2.y), fx_mul(v1.y, v2.x)),
        )
    }

    /// Mirror `v_in` about `normal`: `v_in - normal * 2 * dot(v_in, normal)`.
    pub fn reflect(v_in: &Tuples, normal: &Tuples) -> (r: Tuples)
        ensures
            r == reflect_s(*v_in, *normal),
    {
        let d = Tuples::dot(v_in, normal);
        let factor = fx_mul(2 * SCALE, d);
        let mut scaled = normal.clone();
        scaled.scale(factor);
        let mut out = v_in.clone();
        out.subtract(&scaled)
    }
}

/// The reflection of `v` about `n`: `v - n * (2 * dot(v, n))`.
pub open spec fn reflect_s(v: Tuples, n: Tuples) -> Tuples {
    sub_tup_s(v, scale_tup_s(n, fx_mul_s(2 * SCALE, dot_s(v, n))))
}

impl Tuples {
    pub fn is_point(&self) -> (r: bool)
        ensures
            r == self.is_point_s(),
    {
        self.kind == TuplesEnum::Point
    }

    pub fn is_vector(&self) -> (r: bool)
        ensures
            r == self.is_vector_s(),
    {
        self.kind == TuplesEnum::Vector
    }

    pub fn is_equal(&self, other: &Tuples) -> (r: bool)
        ensures
            r == tuples_eq_s(*self, *other),
    {
        fx_is_equal(self.x, other.x) && fx_is_equal(self.y, other.y)
            && fx_is_equal(self.z, other.z) && fx_is_equal(self.w, other.w)
    }

    pub fn get_at_idx(&self, idx: usize) -> (r: i64)
        requires
            idx < 4,
        ensures
            idx == 0 ==> r == self.x,
            idx == 1 ==> r == self.y,
            idx == 2 ==> r == self.z,
            idx == 3 ==> r == self.w,
    {
        if idx == 0 {
            self.x
        } else if idx == 1 {
            self.y
        } else if idx == 2 {
            self.z
        } else {
            self.w
        }
    }

    pub fn set_at_idx(&mut self, idx: usize, val: i64)
        requires
            idx < 4,
        ensures
            final(self).kind_s() == old(self).kind_s(),
            idx == 0 ==> *final(self) == (Tuples { x: val, ..*old(self) }),
            idx == 1 ==> *final(self) == (Tuples { y: val, ..*old(self) }),
            idx == 2 ==> *final(self) == (Tuples { z: val, ..*old(self) }),
            idx == 3 ==> *final(self) == (Tuples { w: val, ..*old(self) }),
    {
        if idx == 0 {
            self.x = val;
        } else if idx == 1 {
            self.y = val;
        } else if idx == 2 {
            self.z = val;
        } else {
            self.w = val;
        }
    }

    pub fn add(&mut self, other: &Tuples) -> (r: Tuples)
        ensures
            *final(self) == add_tup_s(*old(self), *other),
            r == *final(self),
    {
        self.x = fx_add(self.x, other.x);
        self.y = fx_add(self.y, other.y);
        self.z = fx_add(self.z, other.z);
        self.w = fx_add(self.w, other.w);
        *self
    }

    pub fn subtract(&mut self, other: &Tuples) -> (r: Tuples)
        ensures
            *final(self) == sub_tup_s(*old(self), *other),
            r == *final(self),
    {
        self.x = fx_sub(self.x, other.x);
        self.y = fx_sub(self.y, other.y);
        self.z = fx_sub(self.z, other.z);
        self.w = fx_sub(self.w, other.w);
        *self
    }

    pub fn negate(&mut self) -> (r: Tuples)
        ensures
            *final(self) == neg_tup_s(*old(self)),
            r == *final(self),
    {
        self.x = fx_neg(self.x);
        self.y = fx_neg(self.y);
        self.z = fx_neg(self.z);
        self.w = fx_neg(self.w);
        *self
    }

    /// Component-wise (Hadamard) product, as used for color blending.
    pub fn multiply(&mut self, other: &Tuples) -> (r: Tuples)
        ensures
            *final(self) == mul_tup_s(*old(self), *other),
            r == *final(self),
    {
        self.x = fx_mul(self.x, other.x);
        self.y = fx_mul(self.y, other.y);
        self.z = fx_mul(self.z, other.z);
        self.w = fx_mul(self.w, other.w);
        *self
    }

    pub fn scale(&mut self, scalar: i64) -> (r: Tuples)
        ensures
            *final(self) == scale_tup_s(*old(self), scalar as int),
            r == *final(self),
    {
        self.x = fx_mul(self.x, scalar);
        self.y = fx_mul(self.y, scalar);
        self.z = fx_mul(self.z, scalar);
        self.w = fx_mul(self.w, scalar);
        *self
    }

    pub fn magnitude(&mut self) -> (r: i64)
        ensures
            *final(self) == *old(self),
            r as int == magnitude_s(*old(self)),
    {
        let d = Tuples::dot(self, self);
        fx_sqrt(d)
    }

    /// Scale the tuple to unit length at the engine tolerance: components
    /// saturate into the scalar range, short tuples are doubled up to the
    /// unit scale (exactly, keeping the direction), and each component is
    /// divided by the exact length. A tuple of length zero has no direction
    /// and is left unchanged.
    pub fn normalize(&mut self) -> (r: Tuples)
        ensures
            *final(self) == normalize_s(*old(self)),
            r == *final(self),
            norm_sq_s(clamp_tup_s(*old(self))) != 0 ==> fx_abs_s(
                norm_units_s(*final(self)) - SCALE as int) < crate::fx::EPSILON,
    {
        let mut ux = fx_clamp(self.x);
        let mut uy = fx_clamp(self.y);
        let mut uz = fx_clamp(self.z);
        let mut uw = fx_clamp(self.w);
        let ghost c = clamp_tup_s(*old(self));
        if ux == 0 && uy == 0 && uz == 0 && uw == 0 {
            proof {
                assert(norm_sq_s(c) == 0) by (nonlinear_arith)
                    requires c.x as int == 0 && c.y as int == 0 && c.z as int == 0 && c.w as int == 0;
            }
            return *self;
        }
        proof {
            lemma_norm_sq_max(c);
            if norm_sq_s(c) == 0 {
                assert(c.x as int == 0 && c.y as int == 0 && c.z as int == 0 && c.w as int == 0);
                assert(false);
            }
            assert(tup_in_range_s(c));
        }
        let mut k: usize = 0;
        while k < 21 && Self::small_max(ux, uy, uz, uw)
            invariant
                k <= 21,
                tup_in_range_s(Tuples { kind: c.kind, x: ux, y: uy, z: uz, w: uw }),
                max_abs_s(Tuples { kind: c.kind, x: ux, y: uy, z: uz, w: uw }) >= 1,
                upscale_steps_s(Tuples { kind: c.kind, x: ux, y: uy, z: uz, w: uw }, 21 - k as int)
                    == upscale_steps_s(c, 21),
            decreases 21 - k,
        {
            proof {
                lemma_double_exact(Tuples { kind: c.kind, x: ux, y: uy, z: uz, w: uw });
            }
            ux = ux * 2;
            uy = uy * 2;
            uz = uz * 2;
            uw = uw * 2;
            k = k + 1;
        }
        let ghost u = upscale_steps_s(c, 21);
        proof {
            assert(u == Tuples { kind: c.kind, x: ux, y: uy, z: uz, w: uw });
        }
        proof {
            assert(FX_MAX == 1_000_000_000_000i64);
            assert(0 <= (ux as int) * (ux as int) <= 1_000_000_000_000 * 1_000_000_000_000)
                by (nonlinear_arith)
                requires fx_abs_s(ux as int) <= 1_000_000_000_000;
            assert(0 <= (uy as int) * (uy as int) <= 1_000_000_000_000 * 1_000_000_000_000)
                by (nonlinear_arith)
                requires fx_abs_s(uy as int) <= 1_000_000_000_000;
            assert(0 <= (uz as int) * (uz as int) <= 1_000_000_000_000 * 1_000_000_000_000)
                by (nonlinear_arith)
                requires fx_abs_s(uz as int) <= 1_000_000_000_000;
            assert(0 <= (uw as int) * (uw as int) <= 1_000_000_000_000 * 1_000_000_000_000)
                by (nonlinear_arith)
                requires fx_abs_s(uw as int) <= 1_000_000_000_000;
        }
        let qx: u128 = ((ux as i128) * (ux as i128)) as u128;
        let qy: u128 = ((uy as i128) * (uy as i128)) as u128;
        let qz: u128 = ((uz as i128) * (uz as i128)) as u128;
        let qw: u128 = ((uw as i128) * (uw as i128)) as u128;
        let q: u128 = qx + qy + qz + qw;
        proof {
            assert(q as int == norm_sq_s(u));
            lemma_norm_sq_max(u);
            lemma_upscale_props(c, 21);
            if norm_units_s(u) == 0 {
                crate::fx::lemma_sqrt_floor_bounds(norm_sq_s(u));
                assert(max_abs_s(u) >= 1);
                assert(norm_sq_s(u) >= max_abs_s(u) * max_abs_s(u) >= 1) by (nonlinear_arith)
                    requires norm_sq_s(u) >= max_abs_s(u) * max_abs_s(u) && max_abs_s(u) >= 1;
                assert(false);
            }
        }
        let m = int_sqrt(q);
        self.x = fx_div(ux, m);
        self.y = fx_div(uy, m);
        self.z = fx_div(uz, m);
        self.w = fx_div(uw, m);
        proof {
            lemma_normalize_unit(*old(self));
        }
        *self
    }

    /// Whether the largest component magnitude is still below one unit.
    fn small_max(x: i64, y: i64, z: i64, w: i64) -> (r: bool)
        ensures
            r == (max_abs_s(Tuples { kind: TuplesEnum::Tuple, x, y, z, w }) < SCALE),
    {
        let ax = crate::fx::fx_abs(x);
        let ay = crate::fx::fx_abs(y);
        let az = crate::fx::fx_abs(z);
        let aw = crate::fx::fx_abs(w);
        let m1 = if ax >= ay { ax } else { ay };
        let m2 = if m1 >= az { m1 } else { az };
        let m3 = if m2 >= aw { m2 } else { aw };
        m3 < SCALE
    }
}

} // verus!
