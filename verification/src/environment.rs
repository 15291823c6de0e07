//! The forces acting on a projectile: gravity and wind.
use vstd::prelude::*;
use crate::tuples::Tuples;
use crate::tuples::TuplesEnum;

verus! {

#[derive(Debug, Clone, Copy)]
pub struct Environment {
    pub gravity: Tuples,
    pub wind: Tuples,
}

impl Environment {
    pub fn new() -> (r: Environment)
        ensures
            r.gravity == (Tuples { kind: TuplesEnum::Vector, x: 0, y: 0, z: 0, w: 0 }),
            r.wind == (Tuples { kind: TuplesEnum::Vector, x: 0, y: 0, z: 0, w: 0 }),
    {
        Environment {
            gravity: Tuples::vector(0, 0, 0),
            wind: Tuples::vector(0, 0, 0),
        }
    }

    pub fn from_values(x_grav: i64, y_grav: i64, z_grav: i64, x_wind: i64, y_wind: i64, z_wind: i64) -> (r: Environment)
        ensures
            r.gravity == (Tuples { kind: TuplesEnum::Vector, x: x_grav, y: y_grav, z: z_grav, w: 0 }),
            r.wind == (Tuples { kind: TuplesEnum::Vector, x: x_wind, y: y_wind, z: z_wind, w: 0 }),
    {
        Environment {
            gravity: Tuples::vector(x_grav, y_grav, z_grav),
            wind: Tuples::vector(x_wind, y_wind, z_wind),
        }
    }
}

} // verus!
