//! The star at the middle of the system.

use vstd::prelude::*;
use crate::fixed::{fx_mul, product, saturate, saturated, Fixed};
use crate::geometry::mesh::Mesh;
use crate::geometry::sphere::{create_sphere, sphere_made};
use crate::vector::{Angle, Vec3};

verus! {

/// How fast the star turns: 0.05 a second, rounded down.
pub const STAR_SPIN: Fixed = 3276;

/// A sphere that turns about its axis.
pub struct Star {
    pub position: Vec3,
    pub radius: Fixed,
    /// The angle that the star has turned by.
    pub rotation: Fixed,
    /// How far it turns in a second.
    pub rotation_speed: Fixed,
    pub mesh: Mesh,
}

/// An angle after the time `dt` at the given speed.
pub open spec fn turned(angle: Fixed, speed: Fixed, dt: Fixed) -> int {
    saturated(angle + product(speed as int, dt as int))
}

/// An angle after the time `dt` at the given speed.
pub fn turn(angle: Fixed, speed: Fixed, dt: Fixed) -> (r: Fixed)
    ensures
        r == turned(angle, speed, dt),
{
    saturate((angle as i128) + (fx_mul(speed, dt) as i128))
}

impl Star {
    /// A star of the given radius at the given place, not yet turned, whose
    /// mesh is a sphere of 16 rings and 16 segments.
    pub fn new<T: Fn(Fixed) -> Angle>(radius: Fixed, position: Vec3, trig: &T) -> (s: Star)
        requires
            forall|a: Fixed| call_requires(trig, (a,)),
        ensures
            s.position == position,
            s.radius == radius,
            s.rotation == 0,
            s.rotation_speed == STAR_SPIN,
            sphere_made(s.mesh.vertices@, radius, 16, 16, trig),
    {
        let mesh: Mesh = create_sphere(radius, 16, 16, trig);
        Star { position, radius, rotation: 0, rotation_speed: 3276, mesh }
    }

    /// Lets the time `delta_time` pass: the star turns.
    pub fn update(&mut self, delta_time: Fixed)
        ensures
            final(self).rotation == turned(old(self).rotation, old(self).rotation_speed, delta_time),
            final(self).position == old(self).position,
            final(self).radius == old(self).radius,
            final(self).rotation_speed == old(self).rotation_speed,
            final(self).mesh == old(self).mesh,
    {
        self.rotation = turn(self.rotation, self.rotation_speed, delta_time);
    }
}

} // verus!
