//! Patterns map a point in pattern space to a color. Each pattern owns its
//! own transform with a cached inverse; composite patterns own their
//! sub-patterns and evaluate them in the sub-pattern's own space.
use vstd::prelude::*;
use crate::fx::SCALE;
use crate::fx::fx_add_s;
use crate::fx::fx_mul_s;
use crate::fx::fx_abs_s;
use crate::fx::fx_clamp_s;
use crate::fx::fx_sqrt_s;
use crate::fx::fx_floor_s;
use crate::fx::fx_frac_s;
use crate::fx::fx_eq_s;
use crate::fx::fx_add;
use crate::fx::fx_mul;
use crate::fx::fx_abs;
use crate::fx::fx_sqrt;
use crate::fx::fx_floor;
use crate::fx::fx_frac;
use crate::fx::fx_even;
use crate::tuples::Tuples;
use crate::tuples::TuplesEnum;
use crate::tuples::add_tup_s;
use crate::tuples::scale_tup_s;
use crate::tuples::sub_tup_s;
use crate::matrices::Matrix;
use crate::matrices::MatrixError;
use crate::matrices::mat_mul_tuple_s;
use crate::matrices::det_seq;
use crate::matrices::is_inverse_of_s;

verus! {

/// Half of one unit, for averaging two colors.
pub const HALF: i64 = 500_000;

#[derive(Debug)]
pub enum PatternKind {
    /// Reports the point itself as a color, for exercising the transform
    /// plumbing.
    Test,
    SingleColor(Tuples),
    Stripe(Tuples, Tuples),
    /// Colors `a`, `b` and the cached component distance `b - a`.
    Gradient(Tuples, Tuples, Tuples),
    Ring(Tuples, Tuples),
    RadialGradient(Tuples, Tuples, Tuples),
    Checkers(Tuples, Tuples),
    NestedCheckers(Box<Pattern>, Box<Pattern>),
    Blended(Box<Pattern>, Box<Pattern>),
}

#[derive(Debug)]
pub struct Pattern {
    pub kind: PatternKind,
    pub transform: Matrix,
    pub transform_inverse: Matrix,
}

/// Both transforms present with the right shape, recursively.
pub open spec fn pattern_wf(p: Pattern) -> bool
    decreases p,
{
    &&& p.transform.wf()
    &&& p.transform.dim_s() == 4
    &&& p.transform_inverse.wf()
    &&& p.transform_inverse.dim_s() == 4
    &&& match p.kind {
        PatternKind::NestedCheckers(a, b) => pattern_wf(*a) && pattern_wf(*b),
        PatternKind::Blended(a, b) => pattern_wf(*a) && pattern_wf(*b),
        _ => true,
    }
}

/// Stripe selection: the parity of `floor(x)` picks color `a` or `b`.
pub open spec fn stripe_sel_s(a: Tuples, b: Tuples, x: int) -> Tuples {
    if fx_floor_s(x) % 2 == 0 { a } else { b }
}

/// Distance from the y axis in the xz plane.
pub open spec fn radial_dist_s(x: int, z: int) -> int {
    fx_sqrt_s(fx_add_s(fx_mul_s(x, x), fx_mul_s(z, z)))
}

/// Checkers parity over the x and z floors; y is deliberately left out so
/// the pattern stays intact on xz-aligned planes.
pub open spec fn checkers_even_s(x: int, z: int) -> bool {
    (fx_floor_s(x) + fx_floor_s(z)) % 2 == 0
}

/// Linear blend from `a` along `dist`, driven by the fractional part of
/// `|coord|`; the direction reverses on odd bands to avoid seams.
pub open spec fn gradient_color_s(a: Tuples, dist: Tuples, coord: int) -> Tuples {
    let x = fx_clamp_s(fx_abs_s(coord));
    let f = if fx_floor_s(x) % 2 != 0 { (SCALE as int) - fx_frac_s(x) } else { fx_frac_s(x) };
    add_tup_s(a, scale_tup_s(dist, f))
}

/// The color of a pattern at a point already in the pattern's space.
pub open spec fn color_at_s(p: Pattern, point: Tuples) -> Tuples
    decreases p,
{
    match p.kind {
        PatternKind::Test => Tuples {
            kind: TuplesEnum::Color,
            x: point.x,
            y: point.y,
            z: point.z,
            w: 0,
        },
        PatternKind::SingleColor(c) => c,
        PatternKind::Stripe(a, b) => stripe_sel_s(a, b, point.x as int),
        PatternKind::Gradient(a, b, dist) => gradient_color_s(a, dist, point.x as int),
        PatternKind::Ring(a, b) => {
            if fx_floor_s(radial_dist_s(point.x as int, point.z as int)) % 2 == 0 { a } else { b }
        },
        PatternKind::RadialGradient(a, b, dist) => gradient_color_s(
            a, dist, radial_dist_s(point.x as int, point.z as int)),
        PatternKind::Checkers(a, b) => {
            if checkers_even_s(point.x as int, point.z as int) { a } else { b }
        },
        PatternKind::NestedCheckers(a, b) => {
            if checkers_even_s(point.x as int, point.z as int) {
                color_at_s(*a, mat_mul_tuple_s(a.transform_inverse.ents(), point))
            } else {
                color_at_s(*b, mat_mul_tuple_s(b.transform_inverse.ents(), point))
            }
        },
        PatternKind::Blended(a, b) => {
            let ca = color_at_s(*a, mat_mul_tuple_s(a.transform_inverse.ents(), point));
            let cb = color_at_s(*b, mat_mul_tuple_s(b.transform_inverse.ents(), point));
            scale_tup_s(add_tup_s(ca, cb), HALF as int)
        },
    }
}

/// The fixed color reported by `color_a` / `color_b` for the composite
/// patterns, which have no single color of their own.
pub open spec fn black_s() -> Tuples {
    Tuples { kind: TuplesEnum::Color, x: 0, y: 0, z: 0, w: 0 }
}

pub open spec fn color_a_s(p: Pattern) -> Tuples {
    match p.kind {
        PatternKind::Test => black_s(),
        PatternKind::SingleColor(c) => c,
        PatternKind::Stripe(a, _b) => a,
        PatternKind::Gradient(a, _b, _d) => a,
        PatternKind::Ring(a, _b) => a,
        PatternKind::RadialGradient(a, _b, _d) => a,
        PatternKind::Checkers(a, _b) => a,
        PatternKind::NestedCheckers(_a, _b) => black_s(),
        PatternKind::Blended(_a, _b) => black_s(),
    }
}

pub open spec fn color_b_s(p: Pattern) -> Tuples {
    match p.kind {
        PatternKind::Test => black_s(),
        PatternKind::SingleColor(c) => c,
        PatternKind::Stripe(_a, b) => b,
        PatternKind::Gradient(_a, b, _d) => b,
        PatternKind::Ring(_a, b) => b,
        PatternKind::RadialGradient(_a, b, _d) => b,
        PatternKind::Checkers(_a, b) => b,
        PatternKind::NestedCheckers(_a, _b) => black_s(),
        PatternKind::Blended(_a, _b) => black_s(),
    }
}

/// Sub-patterns of a kind are themselves well formed.
pub open spec fn kind_children_wf(kind: PatternKind) -> bool {
    match kind {
        PatternKind::NestedCheckers(a, b) => pattern_wf(*a) && pattern_wf(*b),
        PatternKind::Blended(a, b) => pattern_wf(*a) && pattern_wf(*b),
        _ => true,
    }
}

impl Pattern {
    fn from_kind(kind: PatternKind) -> (r: Pattern)
        requires
            kind_children_wf(kind),
        ensures
            pattern_wf(r),
            r.kind == kind,
            crate::matrices::is_identity_s(r.transform.ents(), 4),
            crate::matrices::is_identity_s(r.transform_inverse.ents(), 4),
    {
        Pattern { kind, transform: Matrix::new(4), transform_inverse: Matrix::new(4) }
    }

    pub fn test() -> (r: Pattern)
        ensures
            pattern_wf(r),
            r.kind is Test,
            crate::matrices::is_identity_s(r.transform.ents(), 4),
            crate::matrices::is_identity_s(r.transform_inverse.ents(), 4),
    {
        Self::from_kind(PatternKind::Test)
    }

    pub fn single_color(color: Tuples) -> (r: Pattern)
        ensures
            pattern_wf(r),
            r.kind == PatternKind::SingleColor(color),
            crate::matrices::is_identity_s(r.transform.ents(), 4),
            crate::matrices::is_identity_s(r.transform_inverse.ents(), 4),
    {
        Self::from_kind(PatternKind::SingleColor(color))
    }

    pub fn stripe(a: Tuples, b: Tuples) -> (r: Pattern)
        ensures
            pattern_wf(r),
            r.kind == PatternKind::Stripe(a, b),
            crate::matrices::is_identity_s(r.transform.ents(), 4),
            crate::matrices::is_identity_s(r.transform_inverse.ents(), 4),
    {
        Self::from_kind(PatternKind::Stripe(a, b))
    }

    pub fn gradient(a: Tuples, b: Tuples) -> (r: Pattern)
        ensures
            pattern_wf(r),
            r.kind == PatternKind::Gradient(a, b, sub_tup_s(b, a)),
            crate::matrices::is_identity_s(r.transform.ents(), 4),
            crate::matrices::is_identity_s(r.transform_inverse.ents(), 4),
    {
        let mut dist = b.clone();
        dist.subtract(&a);
        Self::from_kind(PatternKind::Gradient(a, b, dist))
    }

    pub fn ring(a: Tuples, b: Tuples) -> (r: Pattern)
        ensures
            pattern_wf(r),
            r.kind == PatternKind::Ring(a, b),
            crate::matrices::is_identity_s(r.transform.ents(), 4),
            crate::matrices::is_identity_s(r.transform_inverse.ents(), 4),
    {
        Self::from_kind(PatternKind::Ring(a, b))
    }

    pub fn radial_gradient(a: Tuples, b: Tuples) -> (r: Pattern)
        ensures
            pattern_wf(r),
            r.kind == PatternKind::RadialGradient(a, b, sub_tup_s(b, a)),
            crate::matrices::is_identity_s(r.transform.ents(), 4),
            crate::matrices::is_identity_s(r.transform_inverse.ents(), 4),
    {
        let mut dist = b.clone();
        dist.subtract(&a);
        Self::from_kind(PatternKind::RadialGradient(a, b, dist))
    }

    pub fn checkers(a: Tuples, b: Tuples) -> (r: Pattern)
        ensures
            pattern_wf(r),
            r.kind == PatternKind::Checkers(a, b),
            crate::matrices::is_identity_s(r.transform.ents(), 4),
            crate::matrices::is_identity_s(r.transform_inverse.ents(), 4),
    {
        Self::from_kind(PatternKind::Checkers(a, b))
    }

    pub fn nested_checkers(a: Pattern, b: Pattern) -> (r: Pattern)
        requires
            pattern_wf(a),
            pattern_wf(b),
        ensures
            pattern_wf(r),
            r.kind matches PatternKind::NestedCheckers(x, y) && *x == a && *y == b,
            crate::matrices::is_identity_s(r.transform.ents(), 4),
            crate::matrices::is_identity_s(r.transform_inverse.ents(), 4),
    {
        Self::from_kind(PatternKind::NestedCheckers(Box::new(a), Box::new(b)))
    }

    pub fn blended(a: Pattern, b: Pattern) -> (r: Pattern)
        requires
            pattern_wf(a),
            pattern_wf(b),
        ensures
            pattern_wf(r),
            r.kind matches PatternKind::Blended(x, y) && *x == a && *y == b,
            crate::matrices::is_identity_s(r.transform.ents(), 4),
            crate::matrices::is_identity_s(r.transform_inverse.ents(), 4),
    {
        Self::from_kind(PatternKind::Blended(Box::new(a), Box::new(b)))
    }

    pub fn color_a(&self) -> (r: Tuples)
        ensures
            r == color_a_s(*self),
    {
        match &self.kind {
            PatternKind::Test => Tuples::color(0, 0, 0),
            PatternKind::SingleColor(c) => *c,
            PatternKind::Stripe(a, _) => *a,
            PatternKind::Gradient(a, _, _) => *a,
            PatternKind::Ring(a, _) => *a,
            PatternKind::RadialGradient(a, _, _) => *a,
            PatternKind::Checkers(a, _) => *a,
            PatternKind::NestedCheckers(_, _) => Tuples::color(0, 0, 0),
            PatternKind::Blended(_, _) => Tuples::color(0, 0, 0),
        }
    }

    pub fn color_b(&self) -> (r: Tuples)
        ensures
            r == color_b_s(*self),
    {
        match &self.kind {
            PatternKind::Test => Tuples::color(0, 0, 0),
            PatternKind::SingleColor(c) => *c,
            PatternKind::Stripe(_, b) => *b,
            PatternKind::Gradient(_, b, _) => *b,
            PatternKind::Ring(_, b) => *b,
            PatternKind::RadialGradient(_, b, _) => *b,
            PatternKind::Checkers(_, b) => *b,
            PatternKind::NestedCheckers(_, _) => Tuples::color(0, 0, 0),
            PatternKind::Blended(_, _) => Tuples::color(0, 0, 0),
        }
    }

    pub fn get_transform(&self) -> (r: &Matrix)
        ensures
            *r == self.transform,
    {
        &self.transform
    }

    pub fn get_transform_inverse(&self) -> (r: &Matrix)
        ensures
            *r == self.transform_inverse,
    {
        &self.transform_inverse
    }

    /// Install a new transform together with its freshly computed inverse;
    /// a singular transform is rejected and nothing changes.
    pub fn set_transform(&mut self, mat: Matrix) -> (r: Result<(), MatrixError>)
        requires
            old(self).pattern_wf_self(),
            mat.wf(),
            mat.dim_s() == 4,
        ensures
            final(self).pattern_wf_self(),
            final(self).kind == old(self).kind,
            match r {
                Result::Ok(()) => {
                    &&& !fx_eq_s(det_seq(mat.ents(), 4), 0)
                    &&& final(self).transform.ents() == mat.ents()
                    &&& final(self).transform.dim_s() == 4
                    &&& is_inverse_of_s(final(self).transform_inverse, mat.ents())
                },
                Result::Err(e) => {
                    &&& fx_eq_s(det_seq(mat.ents(), 4), 0)
                    &&& e == MatrixError::NotInvertible
                    &&& *final(self) == *old(self)
                },
            },
    {
        match Matrix::inverse(&mat) {
            Result::Ok(inv) => {
                self.transform = mat;
                self.transform_inverse = inv;
                Result::Ok(())
            },
            Result::Err(e) => Result::Err(e),
        }
    }

    /// `pattern_wf` as a method, so contracts on `&mut self` read naturally.
    pub open spec fn pattern_wf_self(self) -> bool {
        pattern_wf(self)
    }

    /// The pattern's color at a point already in pattern space.
    pub fn color_at(&self, point: &Tuples) -> (r: Tuples)
        requires
            pattern_wf(*self),
        ensures
            r == color_at_s(*self, *point),
        decreases *self,
    {
        match &self.kind {
            PatternKind::Test => Tuples::color(point.x, point.y, point.z),
            PatternKind::SingleColor(c) => *c,
            PatternKind::Stripe(a, b) => {
                if fx_even(fx_floor(point.x)) { *a } else { *b }
            },
            PatternKind::Gradient(a, _b, dist) => {
                Self::gradient_color(a, dist, point.x)
            },
            PatternKind::Ring(a, b) => {
                let d = fx_sqrt(fx_add(fx_mul(point.x, point.x), fx_mul(point.z, point.z)));
                if fx_even(fx_floor(d)) { *a } else { *b }
            },
            PatternKind::RadialGradient(a, _b, dist) => {
                let d = fx_sqrt(fx_add(fx_mul(point.x, point.x), fx_mul(point.z, point.z)));
                Self::gradient_color(a, dist, d)
            },
            PatternKind::Checkers(a, b) => {
                if fx_even(fx_add_floor(point.x, point.z)) { *a } else { *b }
            },
            PatternKind::NestedCheckers(a, b) => {
                proof {
                    assert(pattern_wf(**a) && pattern_wf(**b));
                }
                if fx_even(fx_add_floor(point.x, point.z)) {
                    let p = Matrix::mul_tuple(&a.transform_inverse, point);
                    a.color_at(&p)
                } else {
                    let p = Matrix::mul_tuple(&b.transform_inverse, point);
                    b.color_at(&p)
                }
            },
            PatternKind::Blended(a, b) => {
                proof {
                    assert(pattern_wf(**a) && pattern_wf(**b));
                }
                let pa = Matrix::mul_tuple(&a.transform_inverse, point);
                let mut ca = a.color_at(&pa);
                let pb = Matrix::mul_tuple(&b.transform_inverse, point);
                let cb = b.color_at(&pb);
                let mut sum = ca.add(&cb);
                sum.scale(HALF)
            },
        }
    }

    fn gradient_color(a: &Tuples, dist: &Tuples, coord: i64) -> (r: Tuples)
        ensures
            r == gradient_color_s(*a, *dist, coord as int),
    {
        let x = fx_abs(coord);
        let fl = fx_floor(x);
        let fr = fx_frac(x);
        let f = if !fx_even(fl) { SCALE - fr } else { fr };
        let mut grad = dist.clone();
        grad.scale(f);
        let mut out = a.clone();
        out.add(&grad)
    }
}

/// The sum of the two coordinate floors, for the checkers parity.
fn fx_add_floor(x: i64, z: i64) -> (r: i64)
    ensures
        r as int == fx_floor_s(x as int) + fx_floor_s(z as int),
{
    let fx = fx_floor(x);
    let fz = fx_floor(z);
    proof {
        assert(fx_floor_s(x as int) + fx_floor_s(z as int) < i64::MAX) by {
            vstd::arithmetic::div_mod::lemma_fundamental_div_mod(x as int, SCALE as int);
            vstd::arithmetic::div_mod::lemma_fundamental_div_mod(z as int, SCALE as int);
        };
        assert(fx_floor_s(x as int) + fx_floor_s(z as int) > i64::MIN) by {
            vstd::arithmetic::div_mod::lemma_fundamental_div_mod(x as int, SCALE as int);
            vstd::arithmetic::div_mod::lemma_fundamental_div_mod(z as int, SCALE as int);
        };
    }
    fx + fz
}

/// The color of a pattern on a shape at a world point: the point goes to
/// the shape's object space through the shape's cached inverse, then into
/// pattern space through the pattern's own inverse.
pub open spec fn color_at_object_s(p: Pattern, object: crate::shape::Shape, point_world: Tuples) -> Tuples {
    let point_object = mat_mul_tuple_s(object.transform_inverse.ents(), point_world);
    let point_pattern = mat_mul_tuple_s(p.transform_inverse.ents(), point_object);
    color_at_s(p, point_pattern)
}

impl Pattern {
    pub fn color_at_object(&self, object: &crate::shape::Shape, point_world: &Tuples) -> (r: Tuples)
        requires
            pattern_wf(*self),
            crate::shape::shape_wf(*object),
        ensures
            r == color_at_object_s(*self, *object, *point_world),
    {
        let point_object = Matrix::mul_tuple(&object.transform_inverse, point_world);
        let point_pattern = Matrix::mul_tuple(&self.transform_inverse, &point_object);
        self.color_at(&point_pattern)
    }
}

/// A pattern's color depends only on the point's components, never on its
/// kind tag.
pub proof fn lemma_color_at_components(p: Pattern, a: Tuples, b: Tuples)
    requires
        a.x == b.x,
        a.y == b.y,
        a.z == b.z,
        a.w == b.w,
    ensures
        color_at_s(p, a) == color_at_s(p, b),
{
    reveal_with_fuel(crate::matrices::mul_tup_acc_s, 5);
    match p.kind {
        PatternKind::NestedCheckers(sub_a, sub_b) => {
            assert(mat_mul_tuple_s(sub_a.transform_inverse.ents(), a)
                == mat_mul_tuple_s(sub_a.transform_inverse.ents(), b));
            assert(mat_mul_tuple_s(sub_b.transform_inverse.ents(), a)
                == mat_mul_tuple_s(sub_b.transform_inverse.ents(), b));
        },
        PatternKind::Blended(sub_a, sub_b) => {
            assert(mat_mul_tuple_s(sub_a.transform_inverse.ents(), a)
                == mat_mul_tuple_s(sub_a.transform_inverse.ents(), b));
            assert(mat_mul_tuple_s(sub_b.transform_inverse.ents(), a)
                == mat_mul_tuple_s(sub_b.transform_inverse.ents(), b));
        },
        _ => {},
    }
}

/// On a shape with an identity transform, a pattern with an identity
/// transform reports at a world point exactly the color it reports at that
/// point directly: the two inverse transforms change nothing.
pub proof fn lemma_color_at_object_identity(p: Pattern, object: crate::shape::Shape, pw: Tuples)
    requires
        object.transform_inverse.wf(),
        object.transform_inverse.dim_s() == 4,
        crate::matrices::is_identity_s(object.transform_inverse.ents(), 4),
        p.transform_inverse.wf(),
        p.transform_inverse.dim_s() == 4,
        crate::matrices::is_identity_s(p.transform_inverse.ents(), 4),
        fx_abs_s(pw.x as int) <= crate::fx::FX_MAX,
        fx_abs_s(pw.y as int) <= crate::fx::FX_MAX,
        fx_abs_s(pw.z as int) <= crate::fx::FX_MAX,
        fx_abs_s(pw.w as int) <= crate::fx::FX_MAX,
    ensures
        color_at_object_s(p, object, pw) == color_at_s(p, pw),
{
    crate::matrices::lemma_identity_mul_tuple(object.transform_inverse.ents(), pw);
    let p1 = mat_mul_tuple_s(object.transform_inverse.ents(), pw);
    crate::matrices::lemma_identity_mul_tuple(p.transform_inverse.ents(), p1);
    let p2 = mat_mul_tuple_s(p.transform_inverse.ents(), p1);
    lemma_color_at_components(p, p2, pw);
}

} // verus!
