//! Point light sources: a position and an intensity color.
use vstd::prelude::*;
use crate::tuples::Tuples;
use crate::tuples::tuples_eq_s;

verus! {

#[derive(Debug, Clone, Copy)]
pub struct PointLight {
    pub position: Tuples,
    pub intensity: Tuples,
}

pub fn point_light(position: &Tuples, intensity: &Tuples) -> (r: PointLight)
    ensures
        r.position == *position,
        r.intensity == *intensity,
{
    PointLight { position: *position, intensity: *intensity }
}

impl PointLight {
    pub fn position(&self) -> (r: &Tuples)
        ensures
            *r == self.position,
    {
        &self.position
    }

    pub fn intensity(&self) -> (r: &Tuples)
        ensures
            *r == self.intensity,
    {
        &self.intensity
    }

    pub fn is_equal(&self, other: &PointLight) -> (r: bool)
        ensures
            r == (tuples_eq_s(self.position, other.position)
                && tuples_eq_s(self.intensity, other.intensity)),
    {
        self.position.is_equal(&other.position) && self.intensity.is_equal(&other.intensity)
    }
}

} // verus!
