//! Planets on circular orbits.

use vstd::prelude::*;
use crate::celestial::star::{turn, turned};
use crate::fixed::{fx_mul, product, Fixed};
use crate::geometry::mesh::Mesh;
use crate::geometry::sphere::{create_sphere, sphere_made};
use crate::vector::{Angle, Vec3};

verus! {

/// How fast a planet turns: 0.1 a second, rounded down.
pub const PLANET_SPIN: Fixed = 6553;

/// The procedural surface that a planet is shaded with.
#[derive(Clone, Copy, Debug, PartialEq, Eq, Structural)]
pub enum PlanetShader {
    Rocky,
    Gaseous,
    Lava,
}

/// A sphere that turns about its axis and circles the origin in the plane
/// `y = 0`.
pub struct Planet {
    pub position: Vec3,
    pub radius: Fixed,
    /// The angle that the planet has turned by.
    pub rotation: Fixed,
    /// How far it turns in a second.
    pub rotation_speed: Fixed,
    pub orbit_radius: Fixed,
    /// Where on its orbit the planet is.
    pub orbit_angle: Fixed,
    /// How far it moves on its orbit in a second.
    pub orbit_speed: Fixed,
    pub shader_type: PlanetShader,
    pub mesh: Mesh,
}

/// The place on an orbit of the given radius at the given angle.
pub open spec fn orbit_position(orbit_radius: Fixed, at: Angle) -> Vec3 {
    Vec3 {
        x: product(orbit_radius as int, at.cos as int) as i32,
        y: 0,
        z: product(orbit_radius as int, at.sin as int) as i32,
    }
}

impl Planet {
    /// A planet at the start of its orbit, on the x axis, whose mesh is a
    /// sphere of 12 rings and 12 segments.
    pub fn new<T: Fn(Fixed) -> Angle>(
        shader_type: PlanetShader,
        radius: Fixed,
        orbit_radius: Fixed,
        orbit_speed: Fixed,
        trig: &T,
    ) -> (p: Planet)
        requires
            forall|a: Fixed| call_requires(trig, (a,)),
        ensures
            p.position == (Vec3 { x: orbit_radius, y: 0, z: 0 }),
            p.radius == radius,
            p.rotation == 0,
            p.rotation_speed == PLANET_SPIN,
            p.orbit_radius == orbit_radius,
            p.orbit_angle == 0,
            p.orbit_speed == orbit_speed,
            p.shader_type == shader_type,
            sphere_made(p.mesh.vertices@, radius, 12, 12, trig),
    {
        let mesh: Mesh = create_sphere(radius, 12, 12, trig);
        Planet {
            position: Vec3 { x: orbit_radius, y: 0, z: 0 },
            radius,
            rotation: 0,
            rotation_speed: 6553,
            orbit_radius,
            orbit_angle: 0,
            orbit_speed,
            shader_type,
            mesh,
        }
    }

    /// Lets the time `delta_time` pass: the planet turns and moves along
    /// its orbit, to the place that sine and cosine of its new angle give.
    /// `trig` is asked for the two.
    pub fn update<T: Fn(Fixed) -> Angle>(&mut self, delta_time: Fixed, trig: &T)
        requires
            forall|a: Fixed| call_requires(trig, (a,)),
        ensures
            final(self).rotation == turned(old(self).rotation, old(self).rotation_speed, delta_time),
            final(self).orbit_angle == turned(
                old(self).orbit_angle,
                old(self).orbit_speed,
                delta_time,
            ),
            exists|at: Angle| #[trigger]
                call_ensures(trig, (final(self).orbit_angle,), at) && final(self).position
                    == orbit_position(old(self).orbit_radius, at),
            final(self).radius == old(self).radius,
            final(self).rotation_speed == old(self).rotation_speed,
            final(self).orbit_radius == old(self).orbit_radius,
            final(self).orbit_speed == old(self).orbit_speed,
            final(self).shader_type == old(self).shader_type,
            final(self).mesh == old(self).mesh,
    {
        self.rotation = turn(self.rotation, self.rotation_speed, delta_time);
        self.orbit_angle = turn(self.orbit_angle, self.orbit_speed, delta_time);
        let at: Angle = trig(self.orbit_angle);
        self.position.x = fx_mul(self.orbit_radius, at.cos);
        self.position.z = fx_mul(self.orbit_radius, at.sin);
        self.position.y = 0;
        proof {
            assert(call_ensures(trig, (self.orbit_angle,), at));
            assert(self.position == orbit_position(old(self).orbit_radius, at));
        }
    }
}

} // verus!
