//! The camera: where it stands, what it looks at, and how it moves.

use vstd::prelude::*;
use crate::fixed::{saturate, saturated, Fixed};
use crate::vector::{
    cross_product, normalized, scaled_vector, vector_difference, vector_sum, Vec3,
};

verus! {

/// A camera at `eye` that looks at `center`.
#[derive(Clone, Copy, Debug, PartialEq, Eq, Structural)]
pub struct Camera {
    pub eye: Vec3,
    pub center: Vec3,
    pub up: Vec3,
}

/// The unit vector from the eye toward the center.
pub open spec fn forward_of(c: Camera) -> Vec3 {
    normalized(vector_difference(c.center, c.eye))
}

/// The unit vector to the right of the camera: forward cross up.
pub open spec fn right_of(c: Camera) -> Vec3 {
    normalized(cross_product(forward_of(c), c.up))
}

/// The camera moved, eye and center alike, by `distance` along the unit
/// vector `direction`.
pub open spec fn moved(c: Camera, direction: Vec3, distance: Fixed) -> Camera {
    let step = scaled_vector(direction, distance as int);
    Camera { eye: vector_sum(c.eye, step), center: vector_sum(c.center, step), up: c.up }
}

impl Camera {
    pub fn new(eye: Vec3, center: Vec3, up: Vec3) -> (c: Camera)
        ensures
            c == (Camera { eye, center, up }),
    {
        Camera { eye, center, up }
    }

    /// The unit vector from the eye toward the center; zero if the two
    /// coincide.
    pub fn forward(&self) -> (r: Vec3)
        ensures
            r == forward_of(*self),
    {
        self.center.minus(&self.eye).normalize()
    }

    /// The unit vector to the right of the camera.
    pub fn right(&self) -> (r: Vec3)
        ensures
            r == right_of(*self),
    {
        self.forward().cross(&self.up).normalize()
    }

    /// Moves eye and center by `distance` along the forward direction.
    pub fn move_forward(&mut self, distance: Fixed)
        ensures
            *final(self) == moved(*old(self), forward_of(*old(self)), distance),
    {
        let step: Vec3 = self.forward().scale(distance);
        self.eye = self.eye.plus(&step);
        self.center = self.center.plus(&step);
    }

    /// Moves eye and center by `distance` to the right.
    pub fn move_right(&mut self, distance: Fixed)
        ensures
            *final(self) == moved(*old(self), right_of(*old(self)), distance),
    {
        let step: Vec3 = self.right().scale(distance);
        self.eye = self.eye.plus(&step);
        self.center = self.center.plus(&step);
    }

    /// Moves eye and center up by `distance` along the world's y axis.
    pub fn move_up(&mut self, distance: Fixed)
        ensures
            *final(self) == (Camera {
                eye: Vec3 { y: saturated(old(self).eye.y + distance) as i32, ..old(self).eye },
                center: Vec3 {
                    y: saturated(old(self).center.y + distance) as i32,
                    ..old(self).center
                },
                up: old(self).up,
            }),
    {
        self.eye.y = saturate((self.eye.y as i128) + (distance as i128));
        self.center.y = saturate((self.center.y as i128) + (distance as i128));
    }
}

} // verus!
