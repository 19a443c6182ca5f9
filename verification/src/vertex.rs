//! Vertices: the 2D screen-space kind and the 3D kind that meshes are made of.

use vstd::prelude::*;
use crate::color::Color;
use crate::fixed::Fixed;
use crate::vector::{Vec2, Vec3, Vec4};

verus! {

/// A point on the screen, in pixels, with a color.
#[derive(Clone, Copy, Debug)]
pub struct Vertex2D {
    pub x: Fixed,
    pub y: Fixed,
    pub color: Color,
}

impl Vertex2D {
    pub fn new(x: Fixed, y: Fixed, color: Color) -> (v: Vertex2D)
        ensures
            v == (Vertex2D { x, y, color }),
    {
        Vertex2D { x, y, color }
    }
}

/// A mesh vertex. The two `transformed` fields are scratch: the vertex stage
/// fills them, and they mean nothing before it has run.
#[derive(Clone, Copy, Debug)]
pub struct Vertex {
    /// Position in object space.
    pub position: Vec3,
    /// Normal in object space, expected to have unit length.
    pub normal: Vec3,
    pub tex_coords: Vec2,
    pub color: Color,
    /// Position in clip space, before the perspective divide.
    pub transformed_position: Vec4,
    /// Normal in world space, of unit length.
    pub transformed_normal: Vec3,
}

impl Vertex {
    /// A vertex with zero texture coordinates whose scratch fields hold the
    /// origin and a copy of the normal.
    pub fn new(position: Vec3, normal: Vec3, color: Color) -> (v: Vertex)
        ensures
            v == (Vertex {
                position,
                normal,
                tex_coords: Vec2 { x: 0, y: 0 },
                color,
                transformed_position: Vec4 { x: 0, y: 0, z: 0, w: 65536 },
                transformed_normal: normal,
            }),
    {
        Vertex {
            position,
            normal,
            tex_coords: Vec2 { x: 0, y: 0 },
            color,
            transformed_position: Vec4 { x: 0, y: 0, z: 0, w: 65536 },
            transformed_normal: normal,
        }
    }
}

} // verus!
