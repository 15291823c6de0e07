//! Ray-solid intersections: parameter values paired with the owning shape
//! (by its index in the world's shape list), kept ascending by `t`;
//! hit selection and the per-hit shading frame, including the
//! container-stack walk that derives the refractive indices.
use vstd::prelude::*;
use vstd::seq_lib::group_to_multiset_ensures;
use crate::fx::SCALE;
use crate::fx::EPSILON;
use crate::fx::fx_eq_s;
use crate::fx::fx_is_equal;
use crate::tuples::Tuples;
use crate::tuples::dot_s;
use crate::tuples::add_tup_s;
use crate::tuples::sub_tup_s;
use crate::tuples::neg_tup_s;
use crate::tuples::scale_tup_s;
use crate::tuples::normalize_s;
use crate::tuples::reflect_s;
use crate::ray::Ray;
use crate::ray::position_s;
use crate::shape::Shape;
use crate::shape::shape_wf;
use crate::shape::normal_at_s;

verus! {

#[derive(Debug, Clone, Copy, PartialEq, Eq, Structural)]
pub struct Intersection {
    pub t: i64,
    /// Index of the intersected shape in the world's shape list.
    pub object: usize,
}

/// Same parameter within the tolerance and the same shape.
pub open spec fn int_eq_s(a: Intersection, b: Intersection) -> bool {
    fx_eq_s(a.t as int, b.t as int) && a.object == b.object
}

pub open spec fn sorted_by_t(s: Seq<Intersection>) -> bool {
    forall|i: int, j: int| 0 <= i < j < s.len() ==> s[i].t <= s[j].t
}

/// Insert after any entries with an equal or smaller parameter.
pub open spec fn insert_by_t_s(s: Seq<Intersection>, v: Intersection) -> Seq<Intersection>
    decreases s.len(),
{
    if s.len() == 0 {
        seq![v]
    } else if s[0].t <= v.t {
        seq![s[0]] + insert_by_t_s(s.drop_first(), v)
    } else {
        seq![v] + s
    }
}

/// Ascending stable insertion sort by `t`.
pub open spec fn sort_by_t_s(s: Seq<Intersection>) -> Seq<Intersection>
    decreases s.len(),
{
    if s.len() == 0 {
        Seq::empty()
    } else {
        insert_by_t_s(sort_by_t_s(s.drop_last()), s.last())
    }
}

/// The first entry with a non-negative parameter, scanning left to right.
pub open spec fn first_hit_s(s: Seq<Intersection>) -> Option<Intersection>
    decreases s.len(),
{
    if s.len() == 0 {
        None
    } else if s[0].t >= 0 {
        Some(s[0])
    } else {
        first_hit_s(s.drop_first())
    }
}

/// As `first_hit_s`, but entries of shapes that cast no shadow are passed
/// over; used by the shadow test.
pub open spec fn first_shadow_hit_s(s: Seq<Intersection>, shapes: Seq<Shape>) -> Option<Intersection>
    decreases s.len(),
{
    if s.len() == 0 {
        None
    } else if s[0].t >= 0 && s[0].object < shapes.len() && shapes[s[0].object as int].cast_shadows {
        Some(s[0])
    } else {
        first_shadow_hit_s(s.drop_first(), shapes)
    }
}

proof fn lemma_prepend_multiset(s: Seq<Intersection>, v: Intersection)
    ensures
        (seq![v] + s).to_multiset() == s.to_multiset().insert(v),
{
    broadcast use group_to_multiset_ensures;
    let x = seq![v] + s;
    assert(x.remove(0) =~= s);
    assert(x.remove(0).to_multiset() =~= x.to_multiset().remove(x[0]));
    assert(x[0] == v);
    assert(x.contains(v));
    assert(x.to_multiset().count(v) > 0);
    assert(x.to_multiset() =~= s.to_multiset().insert(v));
}

/// Inserting keeps every entry: the result is the old multiset plus `v`,
/// and stays sorted.
pub proof fn lemma_insert_by_t_props(s: Seq<Intersection>, v: Intersection)
    requires
        sorted_by_t(s),
    ensures
        insert_by_t_s(s, v).to_multiset() == s.to_multiset().insert(v),
        sorted_by_t(insert_by_t_s(s, v)),
        insert_by_t_s(s, v).len() == s.len() + 1,
    decreases s.len(),
{
    broadcast use group_to_multiset_ensures;
    if s.len() == 0 {
        assert(seq![v] =~= Seq::empty().push(v));
    } else if s[0].t <= v.t {
        let tail = s.drop_first();
        assert(sorted_by_t(tail));
        lemma_insert_by_t_props(tail, v);
        let rec = insert_by_t_s(tail, v);
        lemma_prepend_multiset(rec, s[0]);
        lemma_prepend_multiset(tail, s[0]);
        assert(seq![s[0]] + tail =~= s);
        assert((seq![s[0]] + rec).to_multiset() =~= s.to_multiset().insert(v));
        assert(sorted_by_t(seq![s[0]] + rec)) by {
            assert forall|i: int, j: int| 0 <= i < j < (seq![s[0]] + rec).len()
                implies (seq![s[0]] + rec)[i].t <= (seq![s[0]] + rec)[j].t by {
                if i == 0 {
                    let e = rec[j - 1];
                    assert(rec.to_multiset().count(e) > 0);
                    assert(rec.contains(e) ==> (e == v || tail.contains(e)));
                }
            };
        };
    } else {
        lemma_prepend_multiset(s, v);
    }
}

/// Sorting keeps every entry and orders them ascending by `t`.
pub proof fn lemma_sort_by_t_props(s: Seq<Intersection>)
    ensures
        sort_by_t_s(s).to_multiset() == s.to_multiset(),
        sorted_by_t(sort_by_t_s(s)),
        sort_by_t_s(s).len() == s.len(),
    decreases s.len(),
{
    broadcast use group_to_multiset_ensures;
    if s.len() == 0 {
        assert(sort_by_t_s(s).to_multiset() =~= s.to_multiset());
    } else {
        let front = s.drop_last();
        lemma_sort_by_t_props(front);
        lemma_insert_by_t_props(sort_by_t_s(front), s.last());
        assert(front.push(s.last()) =~= s);
        assert(front.push(s.last()).to_multiset() =~= front.to_multiset().insert(s.last()));
    }
}

/// In a sorted list the first non-negative entry is the hit: it is minimal
/// among the non-negative parameters, and absent only when every parameter
/// is negative.
pub proof fn lemma_hit_minimal(s: Seq<Intersection>)
    requires
        sorted_by_t(s),
    ensures
        match first_hit_s(s) {
            Some(h) => {
                &&& h.t >= 0
                &&& s.contains(h)
                &&& forall|i: int| 0 <= i < s.len() && s[i].t >= 0 ==> h.t <= s[i].t
            },
            None => forall|i: int| 0 <= i < s.len() ==> s[i].t < 0,
        },
    decreases s.len(),
{
    if s.len() == 0 {
    } else if s[0].t >= 0 {
        assert(s[0] == s[0]);
        assert(s.contains(s[0]));
    } else {
        let tail = s.drop_first();
        assert(sorted_by_t(tail));
        lemma_hit_minimal(tail);
        match first_hit_s(tail) {
            Some(h) => {
                assert(tail.contains(h));
                let w = choose|k: int| 0 <= k < tail.len() && tail[k] == h;
                assert(s[w + 1] == h);
                assert(s.contains(h));
                assert forall|i: int| 0 <= i < s.len() && s[i].t >= 0
                    implies h.t <= s[i].t by {
                    if i > 0 {
                        assert(tail[i - 1] == s[i]);
                    }
                };
            },
            None => {
                assert forall|i: int| 0 <= i < s.len() implies s[i].t < 0 by {
                    if i > 0 {
                        assert(tail[i - 1] == s[i]);
                    }
                };
            },
        }
    }
}

// --- the container stack for refraction -------------------------------

/// Remove the first occurrence of `x`, if any.
pub open spec fn remove_first_s(cs: Seq<usize>, x: usize) -> Seq<usize>
    decreases cs.len(),
{
    if cs.len() == 0 {
        cs
    } else if cs[0] == x {
        cs.drop_first()
    } else {
        seq![cs[0]] + remove_first_s(cs.drop_first(), x)
    }
}

/// One step of the container walk: leave the shape if the ray was inside
/// it, else enter it.
pub open spec fn toggle_s(cs: Seq<usize>, x: usize) -> Seq<usize> {
    if cs.contains(x) {
        remove_first_s(cs, x)
    } else {
        cs.push(x)
    }
}

/// The shapes the ray is inside of after the first `k` intersections.
pub open spec fn containers_s(xs: Seq<Intersection>, k: int) -> Seq<usize>
    decreases k,
{
    if k <= 0 {
        Seq::empty()
    } else {
        toggle_s(containers_s(xs, k - 1), xs[k - 1].object)
    }
}

/// First index at or after `i` whose entry matches the hit, or the length.
pub open spec fn hit_index_s(hit: Intersection, xs: Seq<Intersection>, i: int) -> int
    decreases xs.len() - i,
{
    if i < 0 || i >= xs.len() {
        xs.len() as int
    } else if int_eq_s(xs[i], hit) {
        i
    } else {
        hit_index_s(hit, xs, i + 1)
    }
}

/// The refractive indices on both sides of the hit: the index of the
/// innermost container just before the hit (n1) and just after it (n2),
/// with 1.0 standing for empty surroundings. A hit that does not occur in
/// the list leaves both at 1.0.
pub open spec fn refraction_s(hit: Intersection, xs: Seq<Intersection>, shapes: Seq<Shape>) -> (i64, i64) {
    let pos = hit_index_s(hit, xs, 0);
    if pos == xs.len() {
        (SCALE, SCALE)
    } else {
        let before = containers_s(xs, pos);
        let n1 = if before.len() == 0 {
            SCALE
        } else {
            shapes[before.last() as int].material.refractive_index
        };
        let after = containers_s(xs, pos + 1);
        let n2 = if after.len() == 0 {
            SCALE
        } else {
            shapes[after.last() as int].material.refractive_index
        };
        (n1, n2)
    }
}

/// The shading frame derived from a hit: world point, eye and normal
/// vectors (the normal flipped when the hit is inside the solid), the
/// bias-adjusted over- and under-points, the reflection vector and the
/// refractive indices across the hit.
#[verifier::opaque]
pub open spec fn prep_computations_s(hit: Intersection, r: Ray, xs: Seq<Intersection>, shapes: Seq<Shape>) -> Computations {
    let point = position_s(r, hit.t as int);
    let normal0 = normal_at_s(shapes[hit.object as int], point);
    let eye_v = normalize_s(neg_tup_s(r.direction));
    let inside = dot_s(eye_v, normal0) < 0;
    let normal_v = if inside { neg_tup_s(normal0) } else { normal0 };
    let offset = scale_tup_s(normal_v, EPSILON as int);
    let nn = refraction_s(hit, xs, shapes);
    Computations {
        t: hit.t,
        object: hit.object,
        point,
        eye_v,
        normal_v,
        inside,
        over_point: add_tup_s(point, offset),
        under_point: sub_tup_s(point, offset),
        reflect_v: reflect_s(r.direction, normal_v),
        n1: nn.0,
        n2: nn.1,
    }
}

#[derive(Debug, Clone, Copy)]
pub struct Computations {
    pub t: i64,
    pub object: usize,
    pub point: Tuples,
    pub eye_v: Tuples,
    pub normal_v: Tuples,
    pub inside: bool,
    pub over_point: Tuples,
    pub under_point: Tuples,
    pub reflect_v: Tuples,
    pub n1: i64,
    pub n2: i64,
}

#[derive(Debug, Clone)]
pub struct IntersectionList {
    pub count: usize,
    pub xs: Vec<Intersection>,
}

pub open spec fn list_wf(il: IntersectionList) -> bool {
    il.count == il.xs@.len()
}

/// Every entry refers to a shape of the list.
pub open spec fn objects_in_range(s: Seq<Intersection>, n_shapes: int) -> bool {
    forall|i: int| 0 <= i < s.len() ==> s[i].object < n_shapes
}

impl Intersection {
    pub fn new(t: i64, object: usize) -> (r: Intersection)
        ensures
            r == (Intersection { t, object }),
    {
        Intersection { t, object }
    }

    pub fn t(&self) -> (r: i64)
        ensures
            r == self.t,
    {
        self.t
    }

    pub fn object(&self) -> (r: usize)
        ensures
            r == self.object,
    {
        self.object
    }

    pub fn is_equal(&self, other: &Intersection) -> (r: bool)
        ensures
            r == int_eq_s(*self, *other),
    {
        fx_is_equal(self.t, other.t) && self.object == other.object
    }
}

proof fn lemma_insert_by_t_at(s: Seq<Intersection>, v: Intersection, idx: int)
    requires
        0 <= idx <= s.len(),
        forall|j: int| 0 <= j < idx ==> s[j].t <= v.t,
        idx < s.len() ==> s[idx].t > v.t,
    ensures
        insert_by_t_s(s, v) == s.subrange(0, idx) + seq![v] + s.subrange(idx, s.len() as int),
    decreases idx,
{
    if idx == 0 {
        if s.len() == 0 {
            assert(insert_by_t_s(s, v) =~= s.subrange(0, 0) + seq![v] + s.subrange(0, 0));
        } else {
            assert(insert_by_t_s(s, v) =~= s.subrange(0, 0) + seq![v] + s.subrange(0, s.len() as int));
        }
    } else {
        let tail = s.drop_first();
        assert(forall|j: int| 0 <= j < idx - 1 ==> tail[j].t <= v.t);
        lemma_insert_by_t_at(tail, v, idx - 1);
        assert(insert_by_t_s(s, v) =~= s.subrange(0, idx) + seq![v] + s.subrange(idx, s.len() as int)) by {
            assert(tail.subrange(0, idx - 1) =~= s.subrange(1, idx));
            assert(tail.subrange(idx - 1, tail.len() as int) =~= s.subrange(idx, s.len() as int));
        };
    }
}

fn insert_by_t(out: &mut Vec<Intersection>, v: Intersection)
    ensures
        final(out)@ == insert_by_t_s(old(out)@, v),
{
    let mut idx: usize = 0;
    while idx < out.len() && out[idx].t <= v.t
        invariant
            idx <= out@.len(),
            forall|j: int| 0 <= j < idx ==> out@[j].t <= v.t,
        decreases out@.len() - idx,
    {
        idx = idx + 1;
    }
    proof {
        lemma_insert_by_t_at(out@, v, idx as int);
    }
    out.insert(idx, v);
    proof {
        assert(out@ =~= old(out)@.subrange(0, idx as int) + seq![v]
            + old(out)@.subrange(idx as int, old(out)@.len() as int));
    }
}

fn sort_intersections(v: &Vec<Intersection>) -> (r: Vec<Intersection>)
    ensures
        r@ == sort_by_t_s(v@),
{
    let mut out: Vec<Intersection> = Vec::new();
    let mut i: usize = 0;
    while i < v.len()
        invariant
            i <= v@.len(),
            out@ == sort_by_t_s(v@.take(i as int)),
        decreases v@.len() - i,
    {
        insert_by_t(&mut out, v[i]);
        proof {
            assert(v@.take(i + 1 as int).drop_last() =~= v@.take(i as int));
            assert(v@.take(i + 1 as int).last() == v@[i as int]);
        }
        i = i + 1;
    }
    proof {
        assert(v@.take(v@.len() as int) =~= v@);
    }
    out
}

impl IntersectionList {
    pub fn create_empty() -> (r: IntersectionList)
        ensures
            list_wf(r),
            r.xs@ == Seq::<Intersection>::empty(),
    {
        IntersectionList { xs: Vec::new(), count: 0 }
    }

    /// Wrap each parameter with the owning shape's index, in the given
    /// order (not sorted).
    pub fn new(t: Vec<i64>, obj: usize) -> (r: IntersectionList)
        ensures
            list_wf(r),
            r.xs@ == t@.map(|i: int, tv: i64| Intersection { t: tv, object: obj }),
    {
        let ghost target = t@.map(|i: int, tv: i64| Intersection { t: tv, object: obj });
        let mut xs: Vec<Intersection> = Vec::new();
        let mut i: usize = 0;
        while i < t.len()
            invariant
                i <= t@.len(),
                xs@.len() == i,
                target == t@.map(|k: int, tv: i64| Intersection { t: tv, object: obj }),
                forall|j: int| 0 <= j < i ==> xs@[j] == target[j],
            decreases t@.len() - i,
        {
            xs.push(Intersection::new(t[i], obj));
            i = i + 1;
        }
        let count = xs.len();
        proof {
            assert(xs@ =~= target);
        }
        IntersectionList { xs, count }
    }

    /// Concatenate and re-sort ascending by `t`; how the world accumulates
    /// per-shape results into one list.
    pub fn merge(l1: IntersectionList, l2: IntersectionList) -> (r: IntersectionList)
        ensures
            list_wf(r),
            r.xs@ == sort_by_t_s(l1.xs@ + l2.xs@),
            sorted_by_t(r.xs@),
            r.xs@.to_multiset() == (l1.xs@ + l2.xs@).to_multiset(),
    {
        let mut combined = l1.xs;
        let mut rest = l2.xs;
        combined.append(&mut rest);
        let xs = sort_intersections(&combined);
        let count = xs.len();
        proof {
            lemma_sort_by_t_props(combined@);
        }
        IntersectionList { xs, count }
    }

    pub fn intersections(i1: Intersection, i2: Intersection) -> (r: IntersectionList)
        ensures
            list_wf(r),
            r.xs@ == sort_by_t_s(seq![i1, i2]),
            sorted_by_t(r.xs@),
    {
        let mut v: Vec<Intersection> = Vec::new();
        v.push(i1);
        v.push(i2);
        proof {
            assert(v@ =~= seq![i1, i2]);
        }
        Self::intersections_from_vec(v)
    }

    /// Sort the given intersections ascending by `t`.
    pub fn intersections_from_vec(i: Vec<Intersection>) -> (r: IntersectionList)
        ensures
            list_wf(r),
            r.xs@ == sort_by_t_s(i@),
            sorted_by_t(r.xs@),
            r.xs@.to_multiset() == i@.to_multiset(),
    {
        let xs = sort_intersections(&i);
        let count = xs.len();
        proof {
            lemma_sort_by_t_props(i@);
        }
        IntersectionList { xs, count }
    }

    /// The hit: the first intersection with `t >= 0`, scanning in list
    /// order (ascending `t` when the list is sorted), or none.
    pub fn hit(il: &IntersectionList) -> (r: Option<Intersection>)
        ensures
            r == first_hit_s(il.xs@),
    {
        proof {
            assert(il.xs@.skip(0) =~= il.xs@);
        }
        let mut i: usize = 0;
        while i < il.xs.len()
            invariant
                i <= il.xs@.len(),
                first_hit_s(il.xs@) == first_hit_s(il.xs@.skip(i as int)),
            decreases il.xs@.len() - i,
        {
            if il.xs[i].t >= 0 {
                proof {
                    assert(il.xs@.skip(i as int)[0] == il.xs@[i as int]);
                }
                return Some(il.xs[i]);
            }
            proof {
                assert(il.xs@.skip(i as int).drop_first() =~= il.xs@.skip(i + 1));
            }
            i = i + 1;
        }
        proof {
            assert(il.xs@.skip(il.xs@.len() as int).len() == 0);
        }
        None
    }

    /// The hit for shadow rays: like `hit`, but intersections with shapes
    /// that cast no shadow are passed over.
    pub fn hit_shadow(il: &IntersectionList, shapes: &Vec<Shape>) -> (r: Option<Intersection>)
        ensures
            r == first_shadow_hit_s(il.xs@, shapes@),
    {
        proof {
            assert(il.xs@.skip(0) =~= il.xs@);
        }
        let mut i: usize = 0;
        while i < il.xs.len()
            invariant
                i <= il.xs@.len(),
                first_shadow_hit_s(il.xs@, shapes@)
                    == first_shadow_hit_s(il.xs@.skip(i as int), shapes@),
            decreases il.xs@.len() - i,
        {
            let x = il.xs[i];
            if x.t >= 0 && x.object < shapes.len() && shapes[x.object].cast_shadows {
                proof {
                    assert(il.xs@.skip(i as int)[0] == il.xs@[i as int]);
                }
                return Some(x);
            }
            proof {
                assert(il.xs@.skip(i as int)[0] == il.xs@[i as int]);
                assert(il.xs@.skip(i as int).drop_first() =~= il.xs@.skip(i + 1));
            }
            i = i + 1;
        }
        proof {
            assert(il.xs@.skip(il.xs@.len() as int).len() == 0);
        }
        None
    }

    pub fn xs(&self) -> (r: &Vec<Intersection>)
        ensures
            *r == self.xs,
    {
        &self.xs
    }

    pub fn count(&self) -> (r: usize)
        ensures
            r == self.count,
    {
        self.count
    }
}

proof fn lemma_remove_first_at(cs: Seq<usize>, x: usize, idx: int)
    requires
        0 <= idx < cs.len(),
        cs[idx] == x,
        forall|j: int| 0 <= j < idx ==> cs[j] != x,
    ensures
        remove_first_s(cs, x) == cs.remove(idx),
    decreases idx,
{
    if idx == 0 {
        assert(remove_first_s(cs, x) =~= cs.remove(0));
    } else {
        let tail = cs.drop_first();
        lemma_remove_first_at(tail, x, idx - 1);
        assert(seq![cs[0]] + tail.remove(idx - 1) =~= cs.remove(idx));
    }
}

/// One container-stack step on the running vector.
fn toggle(containers: &mut Vec<usize>, x: usize)
    ensures
        final(containers)@ == toggle_s(old(containers)@, x),
{
    let mut j: usize = 0;
    while j < containers.len() && containers[j] != x
        invariant
            j <= containers@.len(),
            forall|k: int| 0 <= k < j ==> containers@[k] != x,
        decreases containers@.len() - j,
    {
        j = j + 1;
    }
    if j < containers.len() {
        proof {
            assert(containers@[j as int] == x);
            assert(containers@.contains(x));
            lemma_remove_first_at(containers@, x, j as int);
        }
        containers.remove(j);
    } else {
        proof {
            if containers@.contains(x) {
                let w = choose|k: int| 0 <= k < containers@.len() && containers@[k] == x;
                assert(false);
            }
        }
        containers.push(x);
    }
}

/// The refractive indices around the hit, by the container-stack walk over
/// the sorted intersection list.
pub fn refraction_indices(hit: &Intersection, xs: &Vec<Intersection>, shapes: &Vec<Shape>) -> (r: (i64, i64))
    requires
        objects_in_range(xs@, shapes@.len() as int),
    ensures
        r == refraction_s(*hit, xs@, shapes@),
{
    let mut containers: Vec<usize> = Vec::new();
    let mut i: usize = 0;
    while i < xs.len()
        invariant
            i <= xs@.len(),
            objects_in_range(xs@, shapes@.len() as int),
            containers@ == containers_s(xs@, i as int),
            hit_index_s(*hit, xs@, 0) == hit_index_s(*hit, xs@, i as int),
            forall|k: int| 0 <= k < containers@.len() ==> containers@[k] < shapes@.len(),
        decreases xs@.len() - i,
    {
        let is_hit = xs[i].is_equal(hit);
        if is_hit {
            proof {
                assert(hit_index_s(*hit, xs@, i as int) == i);
            }
            let n1 = if containers.len() == 0 {
                SCALE
            } else {
                shapes[containers[containers.len() - 1]].material.refractive_index
            };
            toggle(&mut containers, xs[i].object);
            proof {
                assert(containers@ == containers_s(xs@, i + 1));
                assert(forall|k: int| 0 <= k < containers@.len()
                    ==> #[trigger] containers@[k] < shapes@.len()) by {
                    lemma_toggle_range(containers_s(xs@, i as int), xs@[i as int].object, shapes@.len() as int);
                };
            }
            let n2 = if containers.len() == 0 {
                SCALE
            } else {
                shapes[containers[containers.len() - 1]].material.refractive_index
            };
            return (n1, n2);
        }
        toggle(&mut containers, xs[i].object);
        proof {
            assert(hit_index_s(*hit, xs@, i as int) == hit_index_s(*hit, xs@, i + 1));
            assert(forall|k: int| 0 <= k < containers@.len()
                ==> #[trigger] containers@[k] < shapes@.len()) by {
                lemma_toggle_range(containers_s(xs@, i as int), xs@[i as int].object, shapes@.len() as int);
            };
        }
        i = i + 1;
    }
    proof {
        assert(hit_index_s(*hit, xs@, xs@.len() as int) == xs@.len());
    }
    (SCALE, SCALE)
}

proof fn lemma_remove_first_range(cs: Seq<usize>, x: usize, n: int)
    requires
        forall|k: int| 0 <= k < cs.len() ==> cs[k] < n,
    ensures
        forall|k: int| 0 <= k < remove_first_s(cs, x).len() ==> remove_first_s(cs, x)[k] < n,
    decreases cs.len(),
{
    if cs.len() > 0 && cs[0] != x {
        let tail = cs.drop_first();
        lemma_remove_first_range(tail, x, n);
        assert forall|k: int| 0 <= k < remove_first_s(cs, x).len()
            implies remove_first_s(cs, x)[k] < n by {
            if k > 0 {
                assert(remove_first_s(cs, x)[k] == remove_first_s(tail, x)[k - 1]);
            }
        };
    }
}

proof fn lemma_toggle_range(cs: Seq<usize>, x: usize, n: int)
    requires
        forall|k: int| 0 <= k < cs.len() ==> cs[k] < n,
        x < n,
    ensures
        forall|k: int| 0 <= k < toggle_s(cs, x).len() ==> toggle_s(cs, x)[k] < n,
{
    if cs.contains(x) {
        lemma_remove_first_range(cs, x, n);
    }
}

impl Intersection {
    /// The shading frame for the hit: the world point, eye and (possibly
    /// flipped) normal vectors, the bias-adjusted over- and under-points,
    /// the reflection vector and the refractive indices n1/n2 derived from
    /// the full sorted intersection list.
    pub fn prep_computations(hit: &Intersection, r: &Ray, xs: &IntersectionList, shapes: &Vec<Shape>) -> (c: Computations)
        requires
            hit.object < shapes@.len(),
            shape_wf(shapes@[hit.object as int]),
            objects_in_range(xs.xs@, shapes@.len() as int),
        ensures
            c == prep_computations_s(*hit, *r, xs.xs@, shapes@),
            c.object == hit.object,
            c.t == hit.t,
    {
        proof {
            reveal(prep_computations_s);
        }
        let point = Ray::position(r, hit.t);
        let mut normal_v = Shape::normal_at(&shapes[hit.object], &point);
        let mut eye_v = r.direction.clone();
        eye_v.negate();
        eye_v.normalize();
        let inside = Tuples::dot(&eye_v, &normal_v) < 0;
        if inside {
            normal_v.negate();
        }
        let mut normal_v_offset = normal_v.clone();
        normal_v_offset.scale(EPSILON);
        let mut over_point = point.clone();
        over_point.add(&normal_v_offset);
        let mut under_point = point.clone();
        under_point.subtract(&normal_v_offset);
        let reflect_v = Tuples::reflect(&r.direction, &normal_v);
        let nn = refraction_indices(hit, &xs.xs, shapes);
        Computations {
            t: hit.t,
            object: hit.object,
            point,
            eye_v,
            normal_v,
            inside,
            over_point,
            under_point,
            reflect_v,
            n1: nn.0,
            n2: nn.1,
        }
    }
}

} // verus!
