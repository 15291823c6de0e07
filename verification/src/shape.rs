//! The solids of the engine: sphere, plane, cube, cylinder and cone.
//!
//! Every shape owns a world transform with its cached inverse and a
//! material. Intersection and normal computation happen in object space on
//! the canonical unit solid; the shared layer converts to and from world
//! space.
use vstd::prelude::*;
use crate::fx::SCALE;
use crate::fx::EPSILON;
use crate::fx::fx_add_s;
use crate::fx::fx_sub_s;
use crate::fx::fx_neg_s;
use crate::fx::fx_mul_s;
use crate::fx::fx_div_s;
use crate::fx::fx_abs_s;
use crate::fx::fx_clamp_s;
use crate::fx::fx_sqrt_s;
use crate::fx::fx_eq_s;
use crate::fx::fx_tdiv_s;
use crate::fx::fx_add;
use crate::fx::fx_sub;
use crate::fx::fx_neg;
use crate::fx::fx_mul;
use crate::fx::fx_div;
use crate::fx::fx_abs;
use crate::fx::fx_sqrt;
use crate::tuples::Tuples;
use crate::tuples::TuplesEnum;
use crate::tuples::dot_s;
use crate::tuples::sub_tup_s;
use crate::matrices::Matrix;
use crate::matrices::MatrixError;
use crate::matrices::det_seq;
use crate::matrices::is_inverse_of_s;
use crate::matrices::mat_eq_s;
use crate::materials::Material;
use crate::materials::material_wf;
use crate::materials::material_eq_s;
use crate::materials::material_default_s;

verus! {

/// Sentinel parameter value standing for an unbounded slab limit; larger in
/// magnitude than any clamped scalar.
pub const T_INF: i64 = 4_000_000_000_000;

#[derive(Debug, Clone, Copy, PartialEq, Eq, Structural)]
pub enum ShapeKind {
    Sphere,
    Plane,
    Cube,
    Cylinder { y_min: i64, y_max: i64, closed: bool },
    Cone { y_min: i64, y_max: i64, closed: bool },
}

#[derive(Debug)]
pub struct Shape {
    pub kind: ShapeKind,
    pub transform: Matrix,
    pub transform_inverse: Matrix,
    pub material: Material,
    pub cast_shadows: bool,
}

pub open spec fn shape_wf(s: Shape) -> bool {
    &&& s.transform.wf()
    &&& s.transform.dim_s() == 4
    &&& s.transform_inverse.wf()
    &&& s.transform_inverse.dim_s() == 4
    &&& material_wf(s.material)
}

pub open spec fn type_name_s(kind: ShapeKind) -> Seq<char> {
    match kind {
        ShapeKind::Sphere => "Sphere"@,
        ShapeKind::Plane => "Plane"@,
        ShapeKind::Cube => "Cube"@,
        ShapeKind::Cylinder { .. } => "Cylinder"@,
        ShapeKind::Cone { .. } => "Cone"@,
    }
}

/// Whether two kinds are the same sort of solid; the limits of a cylinder
/// or cone are not compared, matching the variant-tag equality of shapes.
pub open spec fn kind_same_s(a: ShapeKind, b: ShapeKind) -> bool {
    match (a, b) {
        (ShapeKind::Sphere, ShapeKind::Sphere) => true,
        (ShapeKind::Plane, ShapeKind::Plane) => true,
        (ShapeKind::Cube, ShapeKind::Cube) => true,
        (ShapeKind::Cylinder { .. }, ShapeKind::Cylinder { .. }) => true,
        (ShapeKind::Cone { .. }, ShapeKind::Cone { .. }) => true,
        _ => false,
    }
}

// --- sorting of parameter lists ---------------------------------------

/// Ascending order of a parameter list.
pub open spec fn sorted_asc(s: Seq<i64>) -> bool {
    forall|i: int, j: int| 0 <= i < j < s.len() ==> s[i] <= s[j]
}

/// Insert `v` into an ascending sequence, after any equal elements.
pub open spec fn insert_sorted_s(s: Seq<i64>, v: i64) -> Seq<i64>
    decreases s.len(),
{
    if s.len() == 0 {
        seq![v]
    } else if s[0] <= v {
        seq![s[0]] + insert_sorted_s(s.drop_first(), v)
    } else {
        seq![v] + s
    }
}

/// Ascending insertion sort, stable for equal elements.
pub open spec fn sort_seq_s(s: Seq<i64>) -> Seq<i64>
    decreases s.len(),
{
    if s.len() == 0 {
        Seq::empty()
    } else {
        insert_sorted_s(sort_seq_s(s.drop_last()), s.last())
    }
}

proof fn lemma_insert_at(s: Seq<i64>, v: i64, idx: int)
    requires
        0 <= idx <= s.len(),
        forall|j: int| 0 <= j < idx ==> s[j] <= v,
        idx < s.len() ==> s[idx] > v,
    ensures
        insert_sorted_s(s, v) == s.subrange(0, idx) + seq![v] + s.subrange(idx, s.len() as int),
    decreases idx,
{
    if idx == 0 {
        if s.len() == 0 {
            assert(insert_sorted_s(s, v) =~= s.subrange(0, 0) + seq![v] + s.subrange(0, 0));
        } else {
            assert(s[0] > v);
            assert(insert_sorted_s(s, v) =~= s.subrange(0, 0) + seq![v] + s.subrange(0, s.len() as int));
        }
    } else {
        assert(s[0] <= v);
        let tail = s.drop_first();
        assert(forall|j: int| 0 <= j < idx - 1 ==> tail[j] <= v);
        lemma_insert_at(tail, v, idx - 1);
        assert(insert_sorted_s(s, v) =~= s.subrange(0, idx) + seq![v] + s.subrange(idx, s.len() as int)) by {
            assert(tail.subrange(0, idx - 1) =~= s.subrange(1, idx));
            assert(tail.subrange(idx - 1, tail.len() as int) =~= s.subrange(idx, s.len() as int));
        };
    }
}

proof fn lemma_prepend_ts_multiset(s: Seq<i64>, v: i64)
    ensures
        (seq![v] + s).to_multiset() == s.to_multiset().insert(v),
{
    broadcast use vstd::seq_lib::group_to_multiset_ensures;
    let x = seq![v] + s;
    assert(x.remove(0) =~= s);
    assert(x.remove(0).to_multiset() =~= x.to_multiset().remove(x[0]));
    assert(x[0] == v);
    assert(x.contains(v));
    assert(x.to_multiset().count(v) > 0);
    assert(x.to_multiset() =~= s.to_multiset().insert(v));
}

/// Inserting keeps every parameter and keeps the order ascending.
pub proof fn lemma_insert_sorted_props(s: Seq<i64>, v: i64)
    requires
        sorted_asc(s),
    ensures
        insert_sorted_s(s, v).to_multiset() == s.to_multiset().insert(v),
        sorted_asc(insert_sorted_s(s, v)),
        insert_sorted_s(s, v).len() == s.len() + 1,
    decreases s.len(),
{
    broadcast use vstd::seq_lib::group_to_multiset_ensures;
    if s.len() == 0 {
        assert(seq![v] =~= Seq::empty().push(v));
    } else if s[0] <= v {
        let tail = s.drop_first();
        assert(sorted_asc(tail));
        lemma_insert_sorted_props(tail, v);
        let rec = insert_sorted_s(tail, v);
        lemma_prepend_ts_multiset(rec, s[0]);
        lemma_prepend_ts_multiset(tail, s[0]);
        assert(seq![s[0]] + tail =~= s);
        assert((seq![s[0]] + rec).to_multiset() =~= s.to_multiset().insert(v));
        assert(sorted_asc(seq![s[0]] + rec)) by {
            assert forall|i: int, j: int| 0 <= i < j < (seq![s[0]] + rec).len()
                implies (seq![s[0]] + rec)[i] <= (seq![s[0]] + rec)[j] by {
                if i == 0 {
                    let e = rec[j - 1];
                    assert(rec.to_multiset().count(e) > 0);
                    assert(rec.contains(e) ==> (e == v || tail.contains(e)));
                }
            };
        };
    } else {
        lemma_prepend_ts_multiset(s, v);
    }
}

/// Sorting keeps every parameter and orders them ascending.
pub proof fn lemma_sort_seq_props(s: Seq<i64>)
    ensures
        sort_seq_s(s).to_multiset() == s.to_multiset(),
        sorted_asc(sort_seq_s(s)),
        sort_seq_s(s).len() == s.len(),
    decreases s.len(),
{
    broadcast use vstd::seq_lib::group_to_multiset_ensures;
    if s.len() == 0 {
        assert(sort_seq_s(s).to_multiset() =~= s.to_multiset());
    } else {
        let front = s.drop_last();
        lemma_sort_seq_props(front);
        lemma_insert_sorted_props(sort_seq_s(front), s.last());
        assert(front.push(s.last()) =~= s);
        assert(front.push(s.last()).to_multiset() =~= front.to_multiset().insert(s.last()));
    }
}

fn insert_sorted(out: &mut Vec<i64>, v: i64)
    ensures
        final(out)@ == insert_sorted_s(old(out)@, v),
{
    let mut idx: usize = 0;
    while idx < out.len() && out[idx] <= v
        invariant
            idx <= out@.len(),
            forall|j: int| 0 <= j < idx ==> out@[j] <= v,
        decreases out@.len() - idx,
    {
        idx = idx + 1;
    }
    proof {
        lemma_insert_at(out@, v, idx as int);
    }
    out.insert(idx, v);
    proof {
        assert(out@ =~= old(out)@.subrange(0, idx as int) + seq![v]
            + old(out)@.subrange(idx as int, old(out)@.len() as int));
    }
}

/// Sort a parameter list ascending.
fn sort_ts(v: &Vec<i64>) -> (r: Vec<i64>)
    ensures
        r@ == sort_seq_s(v@),
        sorted_asc(r@),
        r@.to_multiset() == v@.to_multiset(),
{
    proof {
        lemma_sort_seq_props(v@);
    }
    let mut out: Vec<i64> = Vec::new();
    let mut i: usize = 0;
    while i < v.len()
        invariant
            i <= v@.len(),
            out@ == sort_seq_s(v@.take(i as int)),
        decreases v@.len() - i,
    {
        insert_sorted(&mut out, v[i]);
        proof {
            assert(v@.take(i + 1 as int).drop_last() =~= v@.take(i as int));
            assert(v@.take(i + 1 as int).last() == v@[i as int]);
        }
        i = i + 1;
    }
    proof {
        assert(v@.take(v@.len() as int) =~= v@);
    }
    out
}

// --- object-space intersection, by variant ----------------------------

/// Roots of `|O + tD|^2 = 1` for the unit sphere; a degenerate (near-zero)
/// direction yields no intersection.
pub open spec fn sphere_intersect_s(r: crate::ray::Ray) -> Seq<i64> {
    let str_ = sub_tup_s(r.origin, Tuples { kind: TuplesEnum::Point, x: 0, y: 0, z: 0, w: SCALE });
    let a = dot_s(r.direction, r.direction);
    let b = fx_mul_s(2 * SCALE, dot_s(r.direction, str_));
    let c = fx_sub_s(dot_s(str_, str_), SCALE as int);
    let disc = fx_sub_s(fx_mul_s(b, b), fx_mul_s(fx_mul_s(4 * SCALE, a), c));
    let denom = fx_mul_s(2 * SCALE, a);
    if disc < 0 || denom == 0 {
        Seq::empty()
    } else {
        let sq = fx_sqrt_s(disc);
        seq![
            fx_div_s(fx_sub_s(fx_neg_s(b), sq), denom) as i64,
            fx_div_s(fx_add_s(fx_neg_s(b), sq), denom) as i64,
        ]
    }
}

/// One root against the xz plane, or none when the ray runs parallel.
pub open spec fn plane_intersect_s(r: crate::ray::Ray) -> Seq<i64> {
    if fx_clamp_s(fx_abs_s(r.direction.y as int)) < EPSILON {
        Seq::empty()
    } else {
        seq![fx_div_s(fx_neg_s(r.origin.y as int), r.direction.y as int) as i64]
    }
}

/// Slab bound when the direction component vanishes: the sign of the
/// numerator decides the infinity; a zero numerator leaves the axis out of
/// the overall comparison.
pub open spec fn inf_of_s(num: int, neutral_pos: bool) -> int {
    if num > 0 {
        T_INF as int
    } else if num < 0 {
        -(T_INF as int)
    } else if neutral_pos {
        T_INF as int
    } else {
        -(T_INF as int)
    }
}

/// The entering and leaving parameters of one slab of the unit cube.
pub open spec fn check_axis_s(o: int, d: int) -> (int, int) {
    let tmin_num = fx_sub_s(-(SCALE as int), o);
    let tmax_num = fx_sub_s(SCALE as int, o);
    let pair = if d != 0 {
        (fx_div_s(tmin_num, d), fx_div_s(tmax_num, d))
    } else {
        (inf_of_s(tmin_num, false), inf_of_s(tmax_num, true))
    };
    if pair.0 > pair.1 { (pair.1, pair.0) } else { pair }
}

pub open spec fn max3_s(a: int, b: int, c: int) -> int {
    let ab = if a >= b { a } else { b };
    if ab >= c { ab } else { c }
}

pub open spec fn min3_s(a: int, b: int, c: int) -> int {
    let ab = if a <= b { a } else { b };
    if ab <= c { ab } else { c }
}

/// Slab test of the axis-aligned unit cube.
pub open spec fn cube_intersect_s(r: crate::ray::Ray) -> Seq<i64> {
    let xt = check_axis_s(r.origin.x as int, r.direction.x as int);
    let yt = check_axis_s(r.origin.y as int, r.direction.y as int);
    let zt = check_axis_s(r.origin.z as int, r.direction.z as int);
    let tmin = max3_s(xt.0, yt.0, zt.0);
    let tmax = min3_s(xt.1, yt.1, zt.1);
    if tmin > tmax {
        Seq::empty()
    } else {
        seq![tmin as i64, tmax as i64]
    }
}

/// Whether the ray at parameter `t` lies within the unit cap disc.
pub open spec fn check_cap_s(r: crate::ray::Ray, t: int) -> bool {
    let x = fx_add_s(r.origin.x as int, fx_mul_s(t, r.direction.x as int));
    let z = fx_add_s(r.origin.z as int, fx_mul_s(t, r.direction.z as int));
    fx_add_s(fx_mul_s(x, x), fx_mul_s(z, z)) <= SCALE
}

/// Cap intersections of a closed cylinder.
pub open spec fn cyl_caps_s(r: crate::ray::Ray, y_min: i64, y_max: i64, closed: bool) -> Seq<i64> {
    if !closed || fx_clamp_s(fx_abs_s(r.direction.y as int)) < EPSILON {
        Seq::empty()
    } else {
        let t0 = fx_div_s(fx_sub_s(y_min as int, r.origin.y as int), r.direction.y as int);
        let s0: Seq<i64> = if check_cap_s(r, t0) { seq![t0 as i64] } else { Seq::empty() };
        let t1 = fx_div_s(fx_sub_s(y_max as int, r.origin.y as int), r.direction.y as int);
        if check_cap_s(r, t1) { s0.push(t1 as i64) } else { s0 }
    }
}

/// Body and cap intersections of the y-aligned unit cylinder, ascending.
pub open spec fn cyl_intersect_s(r: crate::ray::Ray, y_min: i64, y_max: i64, closed: bool) -> Seq<i64> {
    let caps = cyl_caps_s(r, y_min, y_max, closed);
    let dx = r.direction.x as int;
    let dz = r.direction.z as int;
    let ox = r.origin.x as int;
    let oz = r.origin.z as int;
    let a = fx_add_s(fx_mul_s(dx, dx), fx_mul_s(dz, dz));
    if a < EPSILON {
        sort_seq_s(caps)
    } else {
        let b = fx_add_s(
            fx_mul_s(fx_mul_s(2 * SCALE, ox), dx),
            fx_mul_s(fx_mul_s(2 * SCALE, oz), dz),
        );
        let c = fx_sub_s(fx_add_s(fx_mul_s(ox, ox), fx_mul_s(oz, oz)), SCALE as int);
        let disc = fx_sub_s(fx_mul_s(b, b), fx_mul_s(fx_mul_s(4 * SCALE, a), c));
        if disc < 0 {
            sort_seq_s(caps)
        } else {
            let sq = fx_sqrt_s(disc);
            let denom = fx_mul_s(2 * SCALE, a);
            let ta = fx_div_s(fx_sub_s(fx_neg_s(b), sq), denom);
            let tb = fx_div_s(fx_add_s(fx_neg_s(b), sq), denom);
            let t1 = if ta > tb { tb } else { ta };
            let t2 = if ta > tb { ta } else { tb };
            let y1 = fx_add_s(r.origin.y as int, fx_mul_s(t1, r.direction.y as int));
            let s1 = if y_min < y1 && y1 < y_max { caps.push(t1 as i64) } else { caps };
            let y2 = fx_add_s(r.origin.y as int, fx_mul_s(t2, r.direction.y as int));
            let s2 = if y_min < y2 && y2 < y_max { s1.push(t2 as i64) } else { s1 };
            sort_seq_s(s2)
        }
    }
}

/// Whether the ray at parameter `t` lies within a cone cap of radius
/// `|y_plane|`.
pub open spec fn cone_check_cap_s(r: crate::ray::Ray, t: int, y_plane: i64) -> bool {
    let x = fx_add_s(r.origin.x as int, fx_mul_s(t, r.direction.x as int));
    let z = fx_add_s(r.origin.z as int, fx_mul_s(t, r.direction.z as int));
    fx_sqrt_s(fx_add_s(fx_mul_s(x, x), fx_mul_s(z, z))) <= fx_clamp_s(fx_abs_s(y_plane as int))
}

/// Cap intersections of a closed cone.
pub open spec fn cone_caps_s(r: crate::ray::Ray, y_min: i64, y_max: i64, closed: bool) -> Seq<i64> {
    if !closed || fx_clamp_s(fx_abs_s(r.direction.y as int)) < EPSILON {
        Seq::empty()
    } else {
        let t0 = fx_div_s(fx_sub_s(y_min as int, r.origin.y as int), r.direction.y as int);
        let s0: Seq<i64> = if cone_check_cap_s(r, t0, y_min) { seq![t0 as i64] } else { Seq::empty() };
        let t1 = fx_div_s(fx_sub_s(y_max as int, r.origin.y as int), r.direction.y as int);
        if cone_check_cap_s(r, t1, y_max) { s0.push(t1 as i64) } else { s0 }
    }
}

/// Body and cap intersections of the double-napped unit cone, ascending,
/// with the linear case handled when the quadratic coefficient degenerates.
pub open spec fn cone_intersect_s(r: crate::ray::Ray, y_min: i64, y_max: i64, closed: bool) -> Seq<i64> {
    let caps = cone_caps_s(r, y_min, y_max, closed);
    let dx = r.direction.x as int;
    let dy = r.direction.y as int;
    let dz = r.direction.z as int;
    let ox = r.origin.x as int;
    let oy = r.origin.y as int;
    let oz = r.origin.z as int;
    let a = fx_add_s(fx_sub_s(fx_mul_s(dx, dx), fx_mul_s(dy, dy)), fx_mul_s(dz, dz));
    let b = fx_add_s(
        fx_sub_s(
            fx_mul_s(fx_mul_s(2 * SCALE, ox), dx),
            fx_mul_s(fx_mul_s(2 * SCALE, oy), dy),
        ),
        fx_mul_s(fx_mul_s(2 * SCALE, oz), dz),
    );
    let c = fx_add_s(fx_sub_s(fx_mul_s(ox, ox), fx_mul_s(oy, oy)), fx_mul_s(oz, oz));
    if fx_clamp_s(fx_abs_s(a)) < EPSILON && fx_clamp_s(fx_abs_s(b)) < EPSILON {
        sort_seq_s(caps)
    } else if fx_clamp_s(fx_abs_s(a)) < EPSILON {
        let t = fx_div_s(fx_neg_s(c), fx_mul_s(2 * SCALE, b));
        sort_seq_s(caps.push(t as i64))
    } else {
        let disc = fx_sub_s(fx_mul_s(b, b), fx_mul_s(fx_mul_s(4 * SCALE, a), c));
        if disc < 0 {
            sort_seq_s(caps)
        } else {
            let sq = fx_sqrt_s(disc);
            let denom = fx_mul_s(2 * SCALE, a);
            let ta = fx_div_s(fx_sub_s(fx_neg_s(b), sq), denom);
            let tb = fx_div_s(fx_add_s(fx_neg_s(b), sq), denom);
            let t1 = if ta > tb { tb } else { ta };
            let t2 = if ta > tb { ta } else { tb };
            let y1 = fx_add_s(oy, fx_mul_s(t1, dy));
            let s1 = if y_min < y1 && y1 < y_max { caps.push(t1 as i64) } else { caps };
            let y2 = fx_add_s(oy, fx_mul_s(t2, dy));
            let s2 = if y_min < y2 && y2 < y_max { s1.push(t2 as i64) } else { s1 };
            sort_seq_s(s2)
        }
    }
}

/// Object-space intersection parameters of a kind of solid.
pub open spec fn intersect_local_s(kind: ShapeKind, r: crate::ray::Ray) -> Seq<i64> {
    match kind {
        ShapeKind::Sphere => sphere_intersect_s(r),
        ShapeKind::Plane => plane_intersect_s(r),
        ShapeKind::Cube => cube_intersect_s(r),
        ShapeKind::Cylinder { y_min, y_max, closed } => cyl_intersect_s(r, y_min, y_max, closed),
        ShapeKind::Cone { y_min, y_max, closed } => cone_intersect_s(r, y_min, y_max, closed),
    }
}

// --- object-space normals, by variant ----------------------------------

pub open spec fn vector_s(x: int, y: int, z: int) -> Tuples {
    Tuples { kind: TuplesEnum::Vector, x: x as i64, y: y as i64, z: z as i64, w: 0 }
}

/// Unit component along the axis of largest magnitude, signed like the
/// coordinate; a zero coordinate counts as positive.
pub open spec fn cube_normal_s(p: Tuples) -> Tuples {
    let ax = fx_clamp_s(fx_abs_s(p.x as int));
    let ay = fx_clamp_s(fx_abs_s(p.y as int));
    let az = fx_clamp_s(fx_abs_s(p.z as int));
    let m = max3_s(ax, ay, az);
    if m == ax {
        vector_s(if p.x < 0 { -(SCALE as int) } else { SCALE as int }, 0, 0)
    } else if m == ay {
        vector_s(0, if p.y < 0 { -(SCALE as int) } else { SCALE as int }, 0)
    } else {
        vector_s(0, 0, if p.z < 0 { -(SCALE as int) } else { SCALE as int })
    }
}

pub open spec fn cyl_normal_s(p: Tuples, y_min: i64, y_max: i64) -> Tuples {
    let dist = fx_add_s(fx_mul_s(p.x as int, p.x as int), fx_mul_s(p.z as int, p.z as int));
    if dist < SCALE && p.y as int >= fx_sub_s(y_max as int, EPSILON as int) {
        vector_s(0, SCALE as int, 0)
    } else if dist < SCALE && p.y as int <= fx_add_s(y_min as int, EPSILON as int) {
        vector_s(0, -(SCALE as int), 0)
    } else {
        Tuples { kind: TuplesEnum::Vector, x: p.x, y: 0, z: p.z, w: 0 }
    }
}

pub open spec fn cone_normal_s(p: Tuples, y_min: i64, y_max: i64) -> Tuples {
    let dist = fx_sqrt_s(fx_add_s(fx_mul_s(p.x as int, p.x as int), fx_mul_s(p.z as int, p.z as int)));
    if dist < fx_clamp_s(fx_abs_s(y_max as int)) && p.y as int >= fx_sub_s(y_max as int, EPSILON as int) {
        vector_s(0, SCALE as int, 0)
    } else if dist < fx_clamp_s(fx_abs_s(y_min as int)) && p.y as int <= fx_add_s(y_min as int, EPSILON as int) {
        vector_s(0, -(SCALE as int), 0)
    } else {
        let y = if p.y > 0 { -dist } else { dist };
        Tuples { kind: TuplesEnum::Vector, x: p.x, y: y as i64, z: p.z, w: 0 }
    }
}

/// Object-space surface normal of a kind of solid at a point.
pub open spec fn normal_local_s(kind: ShapeKind, p: Tuples) -> Tuples {
    match kind {
        ShapeKind::Sphere => Tuples { kind: TuplesEnum::Vector, x: p.x, y: p.y, z: p.z, w: 0 },
        ShapeKind::Plane => vector_s(0, SCALE as int, 0),
        ShapeKind::Cube => cube_normal_s(p),
        ShapeKind::Cylinder { y_min, y_max, closed: _ } => cyl_normal_s(p, y_min, y_max),
        ShapeKind::Cone { y_min, y_max, closed: _ } => cone_normal_s(p, y_min, y_max),
    }
}

/// The dot product of a direction with itself is never negative.
proof fn lemma_self_dot_nonneg(t: Tuples)
    ensures
        dot_s(t, t) >= 0,
{
    crate::fx::lemma_fx_square_nonneg(t.x as int);
    crate::fx::lemma_fx_square_nonneg(t.y as int);
    crate::fx::lemma_fx_square_nonneg(t.z as int);
    crate::fx::lemma_fx_square_nonneg(t.w as int);
}

/// The two roots a sphere reports are in ascending order.
pub proof fn lemma_sphere_roots_sorted(r: crate::ray::Ray)
    ensures
        sphere_intersect_s(r).len() == 2 ==> sphere_intersect_s(r)[0] <= sphere_intersect_s(r)[1],
{
    let str_ = sub_tup_s(r.origin, Tuples { kind: TuplesEnum::Point, x: 0, y: 0, z: 0, w: SCALE });
    let a = dot_s(r.direction, r.direction);
    let b = fx_mul_s(2 * SCALE, dot_s(r.direction, str_));
    let c = fx_sub_s(dot_s(str_, str_), SCALE as int);
    let disc = fx_sub_s(fx_mul_s(b, b), fx_mul_s(fx_mul_s(4 * SCALE, a), c));
    let denom = fx_mul_s(2 * SCALE, a);
    if disc >= 0 && denom != 0 {
        lemma_self_dot_nonneg(r.direction);
        assert(a >= 0);
        assert((2 * SCALE) * a >= 0) by (nonlinear_arith)
            requires a >= 0;
        vstd::arithmetic::div_mod::lemma_div_is_ordered(0, (2 * SCALE) * a, SCALE as int);
        vstd::arithmetic::div_mod::lemma_div_multiples_vanish(0, SCALE as int);
        assert((SCALE as int) * 0 == 0) by (nonlinear_arith);
        assert(denom > 0);
        let sq = fx_sqrt_s(disc);
        crate::fx::lemma_sqrt_floor_bounds(disc * (SCALE as int));
        assert(sq >= 0);
        crate::fx::lemma_fx_div_monotone(fx_sub_s(fx_neg_s(b), sq), fx_add_s(fx_neg_s(b), sq), denom);
    }
}

proof fn lemma_double_nonzero(a: int)
    requires
        fx_abs_s(a) >= EPSILON,
    ensures
        fx_mul_s(2 * SCALE, a) != 0,
{
    let s = SCALE as int;
    let num = (2 * s) * a;
    if a > 0 {
        assert(num == s * (2 * a)) by (nonlinear_arith)
            requires num == (2 * s) * a;
        assert(num > 0) by (nonlinear_arith)
            requires num == (2 * s) * a && a > 0 && s == 1_000_000;
        vstd::arithmetic::div_mod::lemma_div_multiples_vanish(2 * a, s);
        assert(fx_abs_s(num) / fx_abs_s(s) == 2 * a);
        assert(fx_tdiv_s(num, s) == 2 * a);
    } else {
        assert(a < 0);
        assert(-num == s * (-(2 * a))) by (nonlinear_arith)
            requires num == (2 * s) * a;
        assert(num < 0) by (nonlinear_arith)
            requires num == (2 * s) * a && a < 0 && s == 1_000_000;
        vstd::arithmetic::div_mod::lemma_div_multiples_vanish(-(2 * a), s);
        assert(fx_abs_s(num) / fx_abs_s(s) == -(2 * a));
        assert(fx_tdiv_s(num, s) == 2 * a);
    }
}

impl Shape {
    fn from_kind(kind: ShapeKind) -> (r: Shape)
        ensures
            shape_wf(r),
            r.kind == kind,
            crate::matrices::is_identity_s(r.transform.ents(), 4),
            crate::matrices::is_identity_s(r.transform_inverse.ents(), 4),
            material_default_s(r.material),
            r.cast_shadows,
    {
        Shape {
            kind,
            transform: Matrix::new(4),
            transform_inverse: Matrix::new(4),
            material: Material::material(),
            cast_shadows: true,
        }
    }

    pub fn sphere() -> (r: Shape)
        ensures
            shape_wf(r),
            r.kind == ShapeKind::Sphere,
            crate::matrices::is_identity_s(r.transform.ents(), 4),
            crate::matrices::is_identity_s(r.transform_inverse.ents(), 4),
            material_default_s(r.material),
            r.cast_shadows,
    {
        Self::from_kind(ShapeKind::Sphere)
    }

    /// A unit sphere of glass: fully transparent with refractive index 1.5.
    pub fn glass_sphere() -> (r: Shape)
        ensures
            shape_wf(r),
            r.kind == ShapeKind::Sphere,
            crate::matrices::is_identity_s(r.transform.ents(), 4),
            crate::matrices::is_identity_s(r.transform_inverse.ents(), 4),
            r.material.transparency == SCALE,
            r.material.refractive_index == 1_500_000,
            r.material.ambient == 100_000,
            r.material.diffuse == 900_000,
            r.material.specular == 900_000,
            r.material.shininess == 200_000_000,
            r.material.reflective == 0,
            r.cast_shadows,
    {
        let mut s = Self::from_kind(ShapeKind::Sphere);
        let mut material = Material::material();
        material.transparency = SCALE;
        material.refractive_index = 1_500_000;
        s.material = material;
        s
    }

    pub fn plane() -> (r: Shape)
        ensures
            shape_wf(r),
            r.kind == ShapeKind::Plane,
            crate::matrices::is_identity_s(r.transform.ents(), 4),
            crate::matrices::is_identity_s(r.transform_inverse.ents(), 4),
            material_default_s(r.material),
            r.cast_shadows,
    {
        Self::from_kind(ShapeKind::Plane)
    }

    pub fn cube() -> (r: Shape)
        ensures
            shape_wf(r),
            r.kind == ShapeKind::Cube,
            crate::matrices::is_identity_s(r.transform.ents(), 4),
            crate::matrices::is_identity_s(r.transform_inverse.ents(), 4),
            material_default_s(r.material),
            r.cast_shadows,
    {
        Self::from_kind(ShapeKind::Cube)
    }

    /// An unbounded open cylinder.
    pub fn cylinder() -> (r: Shape)
        ensures
            shape_wf(r),
            r.kind == (ShapeKind::Cylinder { y_min: (-T_INF) as i64, y_max: T_INF, closed: false }),
            crate::matrices::is_identity_s(r.transform.ents(), 4),
            crate::matrices::is_identity_s(r.transform_inverse.ents(), 4),
            material_default_s(r.material),
            r.cast_shadows,
    {
        Self::from_kind(ShapeKind::Cylinder { y_min: (-T_INF) as i64, y_max: T_INF, closed: false })
    }

    pub fn cylinder_limited(min: i64, max: i64, closed: bool) -> (r: Shape)
        ensures
            shape_wf(r),
            r.kind == (ShapeKind::Cylinder { y_min: min, y_max: max, closed }),
            crate::matrices::is_identity_s(r.transform.ents(), 4),
            crate::matrices::is_identity_s(r.transform_inverse.ents(), 4),
            material_default_s(r.material),
            r.cast_shadows,
    {
        Self::from_kind(ShapeKind::Cylinder { y_min: min, y_max: max, closed })
    }

    /// An unbounded open double cone.
    pub fn cone() -> (r: Shape)
        ensures
            shape_wf(r),
            r.kind == (ShapeKind::Cone { y_min: (-T_INF) as i64, y_max: T_INF, closed: false }),
            crate::matrices::is_identity_s(r.transform.ents(), 4),
            crate::matrices::is_identity_s(r.transform_inverse.ents(), 4),
            material_default_s(r.material),
            r.cast_shadows,
    {
        Self::from_kind(ShapeKind::Cone { y_min: (-T_INF) as i64, y_max: T_INF, closed: false })
    }

    pub fn cone_limited(min: i64, max: i64, closed: bool) -> (r: Shape)
        ensures
            shape_wf(r),
            r.kind == (ShapeKind::Cone { y_min: min, y_max: max, closed }),
            crate::matrices::is_identity_s(r.transform.ents(), 4),
            crate::matrices::is_identity_s(r.transform_inverse.ents(), 4),
            material_default_s(r.material),
            r.cast_shadows,
    {
        Self::from_kind(ShapeKind::Cone { y_min: min, y_max: max, closed })
    }

    /// Install a transform and its freshly computed inverse; a singular
    /// transform is rejected and the shape is unchanged.
    pub fn set_transform(&mut self, transform: &Matrix) -> (r: Result<(), MatrixError>)
        requires
            shape_wf(*old(self)),
            transform.wf(),
            transform.dim_s() == 4,
        ensures
            shape_wf(*final(self)),
            final(self).kind == old(self).kind,
            final(self).material == old(self).material,
            final(self).cast_shadows == old(self).cast_shadows,
            match r {
                Result::Ok(()) => {
                    &&& !fx_eq_s(det_seq(transform.ents(), 4), 0)
                    &&& final(self).transform.ents() == transform.ents()
                    &&& final(self).transform.dim_s() == 4
                    &&& is_inverse_of_s(final(self).transform_inverse, transform.ents())
                },
                Result::Err(e) => {
                    &&& fx_eq_s(det_seq(transform.ents(), 4), 0)
                    &&& e == MatrixError::NotInvertible
                    &&& *final(self) == *old(self)
                },
            },
    {
        match Matrix::inverse(transform) {
            Result::Ok(inv) => {
                self.transform = transform.duplicate();
                self.transform_inverse = inv;
                Result::Ok(())
            },
            Result::Err(e) => Result::Err(e),
        }
    }

    pub fn set_material(&mut self, material: Material)
        requires
            material_wf(material),
        ensures
            final(self).material == material,
            final(self).kind == old(self).kind,
            final(self).transform == old(self).transform,
            final(self).transform_inverse == old(self).transform_inverse,
            final(self).cast_shadows == old(self).cast_shadows,
    {
        self.material = material;
    }

    pub fn get_material(&self) -> (r: &Material)
        ensures
            *r == self.material,
    {
        &self.material
    }

    pub fn get_transform(&self) -> (r: &Matrix)
        ensures
            *r == self.transform,
    {
        &self.transform
    }

    pub fn get_transform_inverse(&self) -> (r: &Matrix)
        ensures
            *r == self.transform_inverse,
    {
        &self.transform_inverse
    }

    pub fn set_cast_shadows(&mut self, b: bool)
        ensures
            final(self).cast_shadows == b,
            final(self).kind == old(self).kind,
            final(self).material == old(self).material,
            final(self).transform == old(self).transform,
            final(self).transform_inverse == old(self).transform_inverse,
    {
        self.cast_shadows = b;
    }

    pub fn cast_shadows(&self) -> (r: bool)
        ensures
            r == self.cast_shadows,
    {
        self.cast_shadows
    }

    /// The name of the sort of solid.
    pub fn get_type(&self) -> (r: &'static str)
        ensures
            r@ == type_name_s(self.kind),
    {
        match &self.kind {
            ShapeKind::Sphere => "Sphere",
            ShapeKind::Plane => "Plane",
            ShapeKind::Cube => "Cube",
            ShapeKind::Cylinder { .. } => "Cylinder",
            ShapeKind::Cone { .. } => "Cone",
        }
    }

    /// Same sort of solid, equal material coefficients and equal transform
    /// entries, all at the engine tolerance.
    pub fn is_equal(a: &Shape, b: &Shape) -> (r: bool)
        requires
            shape_wf(*a),
            shape_wf(*b),
        ensures
            r == (kind_same_s(a.kind, b.kind) && material_eq_s(a.material, b.material)
                && mat_eq_s(a.transform, b.transform)),
    {
        let same_kind = match (&a.kind, &b.kind) {
            (ShapeKind::Sphere, ShapeKind::Sphere) => true,
            (ShapeKind::Plane, ShapeKind::Plane) => true,
            (ShapeKind::Cube, ShapeKind::Cube) => true,
            (ShapeKind::Cylinder { .. }, ShapeKind::Cylinder { .. }) => true,
            (ShapeKind::Cone { .. }, ShapeKind::Cone { .. }) => true,
            _ => false,
        };
        same_kind && a.material.is_equal(&b.material) && a.transform.is_equal(&b.transform)
    }

    /// Object-space intersection of the canonical solid, ascending by
    /// parameter.
    pub fn intersect_local(&self, r: &crate::ray::Ray) -> (out: Vec<i64>)
        ensures
            out@ == intersect_local_s(self.kind, *r),
            sorted_asc(out@),
            self.kind is Sphere ==> out@.len() == 0 || out@.len() == 2,
            self.kind is Plane ==> out@.len() <= 1,
            self.kind is Cube ==> out@.len() == 0 || out@.len() == 2,
    {
        match &self.kind {
            ShapeKind::Sphere => Self::sphere_intersect(r),
            ShapeKind::Plane => Self::plane_intersect(r),
            ShapeKind::Cube => Self::cube_intersect(r),
            ShapeKind::Cylinder { y_min, y_max, closed } => {
                Self::cyl_intersect(r, *y_min, *y_max, *closed)
            },
            ShapeKind::Cone { y_min, y_max, closed } => {
                Self::cone_intersect(r, *y_min, *y_max, *closed)
            },
        }
    }

    fn sphere_intersect(r: &crate::ray::Ray) -> (out: Vec<i64>)
        ensures
            out@ == sphere_intersect_s(*r),
            out@.len() == 0 || out@.len() == 2,
            out@.len() == 2 ==> out@[0] <= out@[1],
            sorted_asc(out@),
    {
        proof {
            lemma_sphere_roots_sorted(*r);
        }
        let sphere_origin = Tuples::point(0, 0, 0);
        let mut str_ = r.origin.clone();
        str_.subtract(&sphere_origin);
        let a = Tuples::dot(&r.direction, &r.direction);
        let b = fx_mul(2 * SCALE, Tuples::dot(&r.direction, &str_));
        let c = fx_sub(Tuples::dot(&str_, &str_), SCALE);
        let disc = fx_sub(fx_mul(b, b), fx_mul(fx_mul(4 * SCALE, a), c));
        let denom = fx_mul(2 * SCALE, a);
        let mut out: Vec<i64> = Vec::new();
        if disc < 0 || denom == 0 {
            return out;
        }
        let sq = fx_sqrt(disc);
        out.push(fx_div(fx_sub(fx_neg(b), sq), denom));
        out.push(fx_div(fx_add(fx_neg(b), sq), denom));
        proof {
            assert(out@ =~= sphere_intersect_s(*r));
        }
        out
    }

    fn plane_intersect(r: &crate::ray::Ray) -> (out: Vec<i64>)
        ensures
            out@ == plane_intersect_s(*r),
            out@.len() <= 1,
            sorted_asc(out@),
    {
        let mut out: Vec<i64> = Vec::new();
        if fx_abs(r.direction.y) < EPSILON {
            return out;
        }
        out.push(fx_div(fx_neg(r.origin.y), r.direction.y));
        proof {
            assert(out@ =~= plane_intersect_s(*r));
        }
        out
    }

    fn check_axis(origin: i64, direction: i64) -> (out: (i64, i64))
        ensures
            out.0 as int == check_axis_s(origin as int, direction as int).0,
            out.1 as int == check_axis_s(origin as int, direction as int).1,
    {
        let tmin_num = fx_sub(-SCALE, origin);
        let tmax_num = fx_sub(SCALE, origin);
        let pair: (i64, i64) = if direction != 0 {
            (fx_div(tmin_num, direction), fx_div(tmax_num, direction))
        } else {
            let lo = if tmin_num > 0 { T_INF } else { -T_INF };
            let hi = if tmax_num < 0 { -T_INF } else { T_INF };
            (lo, hi)
        };
        if pair.0 > pair.1 {
            (pair.1, pair.0)
        } else {
            pair
        }
    }

    fn cube_intersect(r: &crate::ray::Ray) -> (out: Vec<i64>)
        ensures
            out@ == cube_intersect_s(*r),
            out@.len() == 0 || out@.len() == 2,
            out@.len() == 2 ==> out@[0] <= out@[1],
            sorted_asc(out@),
    {
        let xt = Self::check_axis(r.origin.x, r.direction.x);
        let yt = Self::check_axis(r.origin.y, r.direction.y);
        let zt = Self::check_axis(r.origin.z, r.direction.z);
        let tmin_ab = if xt.0 >= yt.0 { xt.0 } else { yt.0 };
        let tmin = if tmin_ab >= zt.0 { tmin_ab } else { zt.0 };
        let tmax_ab = if xt.1 <= yt.1 { xt.1 } else { yt.1 };
        let tmax = if tmax_ab <= zt.1 { tmax_ab } else { zt.1 };
        let mut out: Vec<i64> = Vec::new();
        if tmin > tmax {
            return out;
        }
        out.push(tmin);
        out.push(tmax);
        proof {
            assert(out@ =~= cube_intersect_s(*r));
        }
        out
    }

    fn check_cap(r: &crate::ray::Ray, t: i64) -> (out: bool)
        ensures
            out == check_cap_s(*r, t as int),
    {
        let x = fx_add(r.origin.x, fx_mul(t, r.direction.x));
        let z = fx_add(r.origin.z, fx_mul(t, r.direction.z));
        fx_add(fx_mul(x, x), fx_mul(z, z)) <= SCALE
    }

    fn cyl_caps(r: &crate::ray::Ray, y_min: i64, y_max: i64, closed: bool) -> (out: Vec<i64>)
        ensures
            out@ == cyl_caps_s(*r, y_min, y_max, closed),
    {
        let mut out: Vec<i64> = Vec::new();
        if !closed || fx_abs(r.direction.y) < EPSILON {
            return out;
        }
        let t0 = fx_div(fx_sub(y_min, r.origin.y), r.direction.y);
        if Self::check_cap(r, t0) {
            out.push(t0);
        }
        let t1 = fx_div(fx_sub(y_max, r.origin.y), r.direction.y);
        if Self::check_cap(r, t1) {
            out.push(t1);
        }
        proof {
            assert(out@ =~= cyl_caps_s(*r, y_min, y_max, closed));
        }
        out
    }

    fn cyl_intersect(r: &crate::ray::Ray, y_min: i64, y_max: i64, closed: bool) -> (out: Vec<i64>)
        ensures
            out@ == cyl_intersect_s(*r, y_min, y_max, closed),
            sorted_asc(out@),
    {
        let mut result = Self::cyl_caps(r, y_min, y_max, closed);
        let a = fx_add(fx_mul(r.direction.x, r.direction.x), fx_mul(r.direction.z, r.direction.z));
        if a < EPSILON {
            let out = sort_ts(&result);
            return out;
        }
        let b = fx_add(
            fx_mul(fx_mul(2 * SCALE, r.origin.x), r.direction.x),
            fx_mul(fx_mul(2 * SCALE, r.origin.z), r.direction.z),
        );
        let c = fx_sub(
            fx_add(fx_mul(r.origin.x, r.origin.x), fx_mul(r.origin.z, r.origin.z)),
            SCALE,
        );
        let disc = fx_sub(fx_mul(b, b), fx_mul(fx_mul(4 * SCALE, a), c));
        if disc < 0 {
            let out = sort_ts(&result);
            return out;
        }
        let sq = fx_sqrt(disc);
        proof {
            lemma_double_nonzero(a as int);
        }
        let denom = fx_mul(2 * SCALE, a);
        let ta = fx_div(fx_sub(fx_neg(b), sq), denom);
        let tb = fx_div(fx_add(fx_neg(b), sq), denom);
        let (t1, t2) = if ta > tb { (tb, ta) } else { (ta, tb) };
        let y1 = fx_add(r.origin.y, fx_mul(t1, r.direction.y));
        if y_min < y1 && y1 < y_max {
            result.push(t1);
        }
        let y2 = fx_add(r.origin.y, fx_mul(t2, r.direction.y));
        if y_min < y2 && y2 < y_max {
            result.push(t2);
        }
        let out = sort_ts(&result);
        out
    }

    fn cone_check_cap(r: &crate::ray::Ray, t: i64, y_plane: i64) -> (out: bool)
        ensures
            out == cone_check_cap_s(*r, t as int, y_plane),
    {
        let x = fx_add(r.origin.x, fx_mul(t, r.direction.x));
        let z = fx_add(r.origin.z, fx_mul(t, r.direction.z));
        fx_sqrt(fx_add(fx_mul(x, x), fx_mul(z, z))) <= fx_abs(y_plane)
    }

    fn cone_caps(r: &crate::ray::Ray, y_min: i64, y_max: i64, closed: bool) -> (out: Vec<i64>)
        ensures
            out@ == cone_caps_s(*r, y_min, y_max, closed),
    {
        let mut out: Vec<i64> = Vec::new();
        if !closed || fx_abs(r.direction.y) < EPSILON {
            return out;
        }
        let t0 = fx_div(fx_sub(y_min, r.origin.y), r.direction.y);
        if Self::cone_check_cap(r, t0, y_min) {
            out.push(t0);
        }
        let t1 = fx_div(fx_sub(y_max, r.origin.y), r.direction.y);
        if Self::cone_check_cap(r, t1, y_max) {
            out.push(t1);
        }
        proof {
            assert(out@ =~= cone_caps_s(*r, y_min, y_max, closed));
        }
        out
    }

    fn cone_intersect(r: &crate::ray::Ray, y_min: i64, y_max: i64, closed: bool) -> (out: Vec<i64>)
        ensures
            out@ == cone_intersect_s(*r, y_min, y_max, closed),
            sorted_asc(out@),
    {
        let mut result = Self::cone_caps(r, y_min, y_max, closed);
        let a = fx_add(
            fx_sub(fx_mul(r.direction.x, r.direction.x), fx_mul(r.direction.y, r.direction.y)),
            fx_mul(r.direction.z, r.direction.z),
        );
        let b = fx_add(
            fx_sub(
                fx_mul(fx_mul(2 * SCALE, r.origin.x), r.direction.x),
                fx_mul(fx_mul(2 * SCALE, r.origin.y), r.direction.y),
            ),
            fx_mul(fx_mul(2 * SCALE, r.origin.z), r.direction.z),
        );
        let c = fx_add(
            fx_sub(fx_mul(r.origin.x, r.origin.x), fx_mul(r.origin.y, r.origin.y)),
            fx_mul(r.origin.z, r.origin.z),
        );
        if fx_abs(a) < EPSILON && fx_abs(b) < EPSILON {
            let out = sort_ts(&result);
            return out;
        }
        if fx_abs(a) < EPSILON {
            proof {
                lemma_double_nonzero(b as int);
            }
            let t = fx_div(fx_neg(c), fx_mul(2 * SCALE, b));
            result.push(t);
            let out = sort_ts(&result);
            return out;
        }
        let disc = fx_sub(fx_mul(b, b), fx_mul(fx_mul(4 * SCALE, a), c));
        if disc < 0 {
            let out = sort_ts(&result);
            return out;
        }
        let sq = fx_sqrt(disc);
        proof {
            lemma_double_nonzero(a as int);
        }
        let denom = fx_mul(2 * SCALE, a);
        let ta = fx_div(fx_sub(fx_neg(b), sq), denom);
        let tb = fx_div(fx_add(fx_neg(b), sq), denom);
        let (t1, t2) = if ta > tb { (tb, ta) } else { (ta, tb) };
        let y1 = fx_add(r.origin.y, fx_mul(t1, r.direction.y));
        if y_min < y1 && y1 < y_max {
            result.push(t1);
        }
        let y2 = fx_add(r.origin.y, fx_mul(t2, r.direction.y));
        if y_min < y2 && y2 < y_max {
            result.push(t2);
        }
        let out = sort_ts(&result);
        out
    }

    /// Object-space surface normal of the canonical solid.
    pub fn normal_at_local(&self, p: &Tuples) -> (out: Tuples)
        ensures
            out == normal_local_s(self.kind, *p),
    {
        match &self.kind {
            ShapeKind::Sphere => Tuples::vector(p.x, p.y, p.z),
            ShapeKind::Plane => Tuples::vector(0, SCALE, 0),
            ShapeKind::Cube => {
                let ax = fx_abs(p.x);
                let ay = fx_abs(p.y);
                let az = fx_abs(p.z);
                let m_ab = if ax >= ay { ax } else { ay };
                let m = if m_ab >= az { m_ab } else { az };
                if m == ax {
                    Tuples::vector(if p.x < 0 { -SCALE } else { SCALE }, 0, 0)
                } else if m == ay {
                    Tuples::vector(0, if p.y < 0 { -SCALE } else { SCALE }, 0)
                } else {
                    Tuples::vector(0, 0, if p.z < 0 { -SCALE } else { SCALE })
                }
            },
            ShapeKind::Cylinder { y_min, y_max, closed: _ } => {
                let dist = fx_add(fx_mul(p.x, p.x), fx_mul(p.z, p.z));
                if dist < SCALE && p.y >= fx_sub(*y_max, EPSILON) {
                    Tuples::vector(0, SCALE, 0)
                } else if dist < SCALE && p.y <= fx_add(*y_min, EPSILON) {
                    Tuples::vector(0, -SCALE, 0)
                } else {
                    Tuples::vector(p.x, 0, p.z)
                }
            },
            ShapeKind::Cone { y_min, y_max, closed: _ } => {
                let dist = fx_sqrt(fx_add(fx_mul(p.x, p.x), fx_mul(p.z, p.z)));
                if dist < fx_abs(*y_max) && p.y >= fx_sub(*y_max, EPSILON) {
                    Tuples::vector(0, SCALE, 0)
                } else if dist < fx_abs(*y_min) && p.y <= fx_add(*y_min, EPSILON) {
                    Tuples::vector(0, -SCALE, 0)
                } else {
                    let y = if p.y > 0 { -dist } else { dist };
                    Tuples::vector(p.x, y, p.z)
                }
            },
        }
    }
}

/// World-space surface normal: the point is taken to object space by the
/// cached inverse, the local normal back by the transposed inverse with its
/// w cleared, then normalized.
#[verifier::opaque]
pub open spec fn normal_at_s(s: Shape, p: Tuples) -> Tuples {
    let p_obj = crate::matrices::mat_mul_tuple_s(s.transform_inverse.ents(), p);
    let n_local = normal_local_s(s.kind, p_obj);
    let n_world = crate::matrices::mat_mul_tuple_s(
        crate::matrices::transpose_seq(s.transform_inverse.ents(), 4), n_local);
    crate::tuples::normalize_s(Tuples { w: 0, ..n_world })
}

/// World-space intersections of one shape: the ray taken to object space by
/// the cached inverse, each local root paired with the shape's index.
#[verifier::opaque]
pub open spec fn shape_intersect_s(s: Shape, r: crate::ray::Ray, s_id: usize) -> Seq<crate::intersections::Intersection> {
    intersect_local_s(s.kind, crate::ray::ray_transform_s(r, s.transform_inverse.ents()))
        .map(|i: int, t: i64| crate::intersections::Intersection { t, object: s_id })
}

impl Shape {
    /// Intersect a world-space ray with this shape, wrapping each root with
    /// the shape's index in the world's list.
    pub fn intersect(s: &Shape, r: &crate::ray::Ray, s_id: usize) -> (out: crate::intersections::IntersectionList)
        requires
            shape_wf(*s),
        ensures
            crate::intersections::list_wf(out),
            out.xs@ == shape_intersect_s(*s, *r, s_id),
            forall|j: int| 0 <= j < out.xs@.len() ==> out.xs@[j].object == s_id,
            crate::intersections::sorted_by_t(out.xs@),
    {
        proof {
            reveal(shape_intersect_s);
        }
        let local_ray = crate::ray::Ray::transform(r, &s.transform_inverse);
        let t = s.intersect_local(&local_ray);
        let out = crate::intersections::IntersectionList::new(t, s_id);
        proof {
            assert forall|i: int, j: int| 0 <= i < j < out.xs@.len()
                implies out.xs@[i].t <= out.xs@[j].t by {
                assert(out.xs@[i].t == t@[i]);
                assert(out.xs@[j].t == t@[j]);
            };
        }
        out
    }

    /// World-space surface normal at a world point, through the cached
    /// inverse transform.
    pub fn normal_at(s: &Shape, p: &Tuples) -> (out: Tuples)
        requires
            shape_wf(*s),
        ensures
            out == normal_at_s(*s, *p),
    {
        proof {
            reveal(normal_at_s);
        }
        let p_object_space = Matrix::mul_tuple(&s.transform_inverse, p);
        let n_local = s.normal_at_local(&p_object_space);
        let transposed = Matrix::transpose(&s.transform_inverse);
        let mut n_world = Matrix::mul_tuple(&transposed, &n_local);
        n_world.w = 0;
        n_world.normalize()
    }
}

} // verus!
