//! A ray: an origin point and a direction vector.
use vstd::prelude::*;
use crate::tuples::Tuples;
use crate::tuples::add_tup_s;
use crate::tuples::scale_tup_s;
use crate::matrices::Matrix;
use crate::matrices::mat_mul_tuple_s;

verus! {

#[derive(Debug, Clone)]
pub struct Ray {
    pub origin: Tuples,
    pub direction: Tuples,
}

/// The point reached after travelling `t` along the ray.
pub open spec fn position_s(r: Ray, t: int) -> Tuples {
    add_tup_s(r.origin, scale_tup_s(r.direction, t))
}

/// Both ends of the ray carried through a transform.
pub open spec fn ray_transform_s(r: Ray, m: Seq<i64>) -> Ray {
    Ray { origin: mat_mul_tuple_s(m, r.origin), direction: mat_mul_tuple_s(m, r.direction) }
}

impl Ray {
    pub fn new(origin: Tuples, direction: Tuples) -> (r: Ray)
        ensures
            r.origin == origin,
            r.direction == direction,
    {
        Ray { origin, direction }
    }

    pub fn transform(r: &Ray, m: &Matrix) -> (out: Ray)
        requires
            m.wf(),
            m.dim_s() == 4,
        ensures
            out == ray_transform_s(*r, m.ents()),
    {
        let origin = Matrix::mul_tuple(m, &r.origin);
        let direction = Matrix::mul_tuple(m, &r.direction);
        Ray { origin, direction }
    }

    pub fn position(r: &Ray, time: i64) -> (out: Tuples)
        ensures
            out == position_s(*r, time as int),
    {
        let mut scaled = r.direction.clone();
        scaled.scale(time);
        let mut out = r.origin.clone();
        out.add(&scaled)
    }

    pub fn origin(&self) -> (out: &Tuples)
        ensures
            *out == self.origin,
    {
        &self.origin
    }

    pub fn direction(&self) -> (out: &Tuples)
        ensures
            *out == self.direction,
    {
        &self.direction
    }
}

} // verus!
