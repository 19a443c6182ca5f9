//! The ship and its flight model.

use vstd::prelude::*;
use crate::camera::{forward_of, right_of, Camera};
use crate::fixed::{clamp, divide_wide, fx_mul, product, saturate, saturated, trunc_div, Fixed, ONE};
use crate::geometry::mesh::Mesh;
use crate::vector::{scaled_vector, vector_sum, Angle, Vec3};

verus! {

/// The steepest pitch: a third of pi, rounded down.
pub const MAX_PITCH: Fixed = 68629;

/// The steepest roll: a quarter of pi, rounded down.
pub const MAX_ROLL: Fixed = 51471;

/// The pitch of the model at rest: half of pi, rounded down, nose forward.
pub const REST_PITCH: Fixed = 102943;

/// The ship.
pub struct Ship {
    pub mesh: Mesh,
    pub position: Vec3,
    /// The angles that the model is turned by about the three axes.
    pub rotation: Vec3,
    pub scale: Fixed,
    pub velocity: Vec3,
    pub target_rotation: Vec3,
    pub acceleration: Fixed,
    pub max_speed: Fixed,
    /// How far a full input turns the ship in one step.
    pub rotation_speed: Fixed,
    pub pitch: Fixed,
    pub roll: Fixed,
    pub yaw: Fixed,
    /// Movement per frame at 60 frames a second.
    pub forward_speed: Fixed,
}

/// An angle that has taken an input, been held within `limit` either way,
/// and lost a twentieth.
pub open spec fn steered(angle: Fixed, input: Fixed, rotation_speed: Fixed, limit: Fixed) -> int {
    trunc_div(
        clamp(
            saturated(angle + product(input as int, rotation_speed as int)),
            -limit,
            limit as int,
        ) * 19,
        20,
    )
}

/// The yaw after a roll input: it follows the roll at half the rate.
pub open spec fn yawed(yaw: Fixed, input: Fixed, rotation_speed: Fixed) -> int {
    saturated(yaw + trunc_div(product(input as int, rotation_speed as int), 2))
}

/// The direction that a ship with the given pitch and yaw flies in:
/// `(sin(yaw) cos(pitch), sin(pitch), -cos(yaw) cos(pitch))`.
pub open spec fn heading(pitch: Angle, yaw: Angle) -> Vec3 {
    Vec3 {
        x: product(yaw.sin as int, pitch.cos as int) as i32,
        y: pitch.sin,
        z: saturated(-product(yaw.cos as int, pitch.cos as int)) as i32,
    }
}

/// The place of a ship that follows the camera: two ahead of the eye and
/// half a unit below it.
pub open spec fn place_before(c: Camera) -> Vec3 {
    vector_sum(
        vector_sum(
            vector_sum(c.eye, scaled_vector(forward_of(c), 2 * ONE)),
            scaled_vector(right_of(c), 0),
        ),
        scaled_vector(Vec3 { x: 0, y: ONE, z: 0 }, -(ONE / 2)),
    )
}

fn steer(angle: Fixed, input: Fixed, rotation_speed: Fixed, limit: Fixed) -> (r: Fixed)
    requires
        0 <= limit,
    ensures
        r == steered(angle, input, rotation_speed, limit),
{
    let raw: Fixed = saturate((angle as i128) + (fx_mul(input, rotation_speed) as i128));
    let held: Fixed = if raw < -limit {
        -limit
    } else if raw > limit {
        limit
    } else {
        raw
    };
    proof {
        crate::fixed::lemma_trunc_div_bounds(held * 19, 20);
    }
    let q: i128 = divide_wide((held as i128) * 19, 20);
    q as i32
}

impl Ship {
    /// A ship with the given mesh, at rest at the origin.
    pub fn new(mesh: Mesh) -> (s: Ship)
        ensures
            s.mesh == mesh,
            s.position == (Vec3 { x: 0, y: 0, z: 0 }),
            s.rotation == (Vec3 { x: 0, y: 0, z: 0 }),
            s.scale == ONE,
            s.velocity == (Vec3 { x: 0, y: 0, z: 0 }),
            s.target_rotation == (Vec3 { x: 0, y: 0, z: 0 }),
            s.acceleration == 1966,
            s.max_speed == 16384,
            s.rotation_speed == 5242,
            s.pitch == 0,
            s.roll == 0,
            s.yaw == 0,
            s.forward_speed == 6553,
    {
        Ship {
            mesh,
            position: Vec3 { x: 0, y: 0, z: 0 },
            rotation: Vec3 { x: 0, y: 0, z: 0 },
            scale: 65536,
            velocity: Vec3 { x: 0, y: 0, z: 0 },
            target_rotation: Vec3 { x: 0, y: 0, z: 0 },
            acceleration: 1966,
            max_speed: 16384,
            rotation_speed: 5242,
            pitch: 0,
            roll: 0,
            yaw: 0,
            forward_speed: 6553,
        }
    }

    /// Takes one step of pitch and roll input, each from -1 to 1: pitch and
    /// roll follow the input, stay within their limits and ease back toward
    /// level, and the yaw follows the roll input at half the rate.
    pub fn apply_input(&mut self, pitch_input: Fixed, roll_input: Fixed)
        ensures
            final(self).pitch == steered(
                old(self).pitch,
                pitch_input,
                old(self).rotation_speed,
                MAX_PITCH,
            ),
            final(self).roll == steered(
                old(self).roll,
                roll_input,
                old(self).rotation_speed,
                MAX_ROLL,
            ),
            final(self).yaw == yawed(old(self).yaw, roll_input, old(self).rotation_speed),
            final(self).mesh == old(self).mesh,
            final(self).position == old(self).position,
            final(self).rotation == old(self).rotation,
            final(self).scale == old(self).scale,
            final(self).velocity == old(self).velocity,
            final(self).target_rotation == old(self).target_rotation,
            final(self).acceleration == old(self).acceleration,
            final(self).max_speed == old(self).max_speed,
            final(self).rotation_speed == old(self).rotation_speed,
            final(self).forward_speed == old(self).forward_speed,
    {
        self.pitch = steer(self.pitch, pitch_input, self.rotation_speed, 68629);
        self.roll = steer(self.roll, roll_input, self.rotation_speed, 51471);
        self.yaw = saturate((self.yaw as i128) + ((fx_mul(roll_input, self.rotation_speed) / 2) as i128));
    }

    /// Lets the time `delta_time` pass: the model takes the ship's pitch,
    /// yaw and roll, and the ship flies on in the direction that sine and
    /// cosine of pitch and yaw give. `trig` is asked for them.
    pub fn update_physics<T: Fn(Fixed) -> Angle>(&mut self, delta_time: Fixed, trig: &T)
        requires
            forall|a: Fixed| call_requires(trig, (a,)),
        ensures
            final(self).rotation == (Vec3 {
                x: saturated(old(self).pitch - REST_PITCH) as i32,
                y: old(self).yaw,
                z: old(self).roll,
            }),
            exists|pitch: Angle, yaw: Angle|
                {
                    &&& call_ensures(trig, (old(self).pitch,), pitch)
                    &&& call_ensures(trig, (old(self).yaw,), yaw)
                    &&& final(self).position == vector_sum(
                        old(self).position,
                        scaled_vector(
                            #[trigger] heading(pitch, yaw),
                            product(old(self).forward_speed as int, saturated(delta_time * 60)),
                        ),
                    )
                },
            final(self).mesh == old(self).mesh,
            final(self).scale == old(self).scale,
            final(self).velocity == old(self).velocity,
            final(self).target_rotation == old(self).target_rotation,
            final(self).acceleration == old(self).acceleration,
            final(self).max_speed == old(self).max_speed,
            final(self).rotation_speed == old(self).rotation_speed,
            final(self).pitch == old(self).pitch,
            final(self).roll == old(self).roll,
            final(self).yaw == old(self).yaw,
            final(self).forward_speed == old(self).forward_speed,
    {
        self.rotation.x = saturate((self.pitch as i128) - 102943);
        self.rotation.y = self.yaw;
        self.rotation.z = self.roll;
        let pitch: Angle = trig(self.pitch);
        let yaw: Angle = trig(self.yaw);
        let forward: Vec3 = Vec3 {
            x: fx_mul(yaw.sin, pitch.cos),
            y: pitch.sin,
            z: saturate(-(fx_mul(yaw.cos, pitch.cos) as i128)),
        };
        let step: Fixed = fx_mul(self.forward_speed, saturate((delta_time as i128) * 60));
        self.position = self.position.plus(&forward.scale(step));
        proof {
            assert(forward == heading(pitch, yaw));
        }
    }

    /// Puts the ship before the camera, two ahead of the eye and half a
    /// unit below it, and turns it the way the camera looks: to the angle
    /// of the camera's forward direction in the plane `y = 0`, which
    /// `direction` is asked for with the `z` and the `x` of that direction.
    pub fn update<D: Fn(Fixed, Fixed) -> Fixed>(&mut self, camera: &Camera, direction: &D)
        requires
            forall|z: Fixed, x: Fixed| call_requires(direction, (z, x)),
        ensures
            final(self).position == place_before(*camera),
            call_ensures(
                direction,
                (forward_of(*camera).z, forward_of(*camera).x),
                final(self).rotation.y,
            ),
            final(self).rotation.x == old(self).rotation.x,
            final(self).rotation.z == old(self).rotation.z,
            final(self).mesh == old(self).mesh,
            final(self).scale == old(self).scale,
            final(self).velocity == old(self).velocity,
            final(self).target_rotation == old(self).target_rotation,
            final(self).acceleration == old(self).acceleration,
            final(self).max_speed == old(self).max_speed,
            final(self).rotation_speed == old(self).rotation_speed,
            final(self).pitch == old(self).pitch,
            final(self).roll == old(self).roll,
            final(self).yaw == old(self).yaw,
            final(self).forward_speed == old(self).forward_speed,
    {
        let forward: Vec3 = camera.forward();
        let right: Vec3 = camera.right();
        let up: Vec3 = Vec3 { x: 0, y: 65536, z: 0 };
        self.position = camera.eye.plus(&forward.scale(2 * 65536)).plus(&right.scale(0)).plus(
            &up.scale(-32768),
        );
        let yaw: Fixed = direction(forward.z, forward.x);
        self.rotation.y = yaw;
    }
}

} // verus!
