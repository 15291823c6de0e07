//! A projectile under gravity and wind, stepped tick by tick.
use vstd::prelude::*;
use crate::tuples::Tuples;
use crate::tuples::TuplesEnum;
use crate::tuples::add_tup_s;
use crate::environment::Environment;

verus! {

#[derive(Debug, Clone, Copy)]
pub struct Projectile {
    pub position: Tuples,
    pub velocity: Tuples,
}

impl Projectile {
    pub fn new() -> (r: Projectile)
        ensures
            r.position == (Tuples { kind: TuplesEnum::Point, x: 0, y: 0, z: 0, w: crate::fx::SCALE }),
            r.velocity == (Tuples { kind: TuplesEnum::Vector, x: 0, y: 0, z: 0, w: 0 }),
    {
        Projectile {
            position: Tuples::point(0, 0, 0),
            velocity: Tuples::vector(0, 0, 0),
        }
    }

    pub fn from_values(x_pos: i64, y_pos: i64, z_pos: i64, x_dir: i64, y_dir: i64, z_dir: i64) -> (r: Projectile)
        ensures
            r.position == (Tuples { kind: TuplesEnum::Point, x: x_pos, y: y_pos, z: z_pos, w: crate::fx::SCALE }),
            r.velocity == (Tuples { kind: TuplesEnum::Vector, x: x_dir, y: y_dir, z: z_dir, w: 0 }),
    {
        Projectile {
            position: Tuples::point(x_pos, y_pos, z_pos),
            velocity: Tuples::vector(x_dir, y_dir, z_dir),
        }
    }

    pub fn from_tuples(position: Tuples, direction: Tuples) -> (r: Projectile)
        ensures
            r.position == position,
            r.velocity == direction,
    {
        Projectile { position, velocity: direction }
    }

    /// One time step: the position moves by the velocity, which in turn
    /// picks up gravity and wind.
    pub fn tick(&mut self, environment: &Environment) -> (r: &Projectile)
        ensures
            final(self).position == add_tup_s(old(self).position, old(self).velocity),
            final(self).velocity == add_tup_s(
                add_tup_s(old(self).velocity, environment.gravity), environment.wind),
            *r == *final(self),
    {
        self.position.add(&self.velocity);
        self.velocity.add(&environment.gravity);
        self.velocity.add(&environment.wind);
        self
    }
}

} // verus!
