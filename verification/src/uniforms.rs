//! The per-frame state that both shader stages read.

use vstd::prelude::*;
use crate::celestial::planet::PlanetShader;
use crate::fixed::{trunc_div, Fixed, ONE};
use crate::vector::{identity, Mat4, Vec4};

verus! {

/// The state of one frame. The scene driver sets it before each object's
/// triangles are drawn; the pipeline only reads it.
#[derive(Clone, Copy, Debug)]
pub struct Uniforms {
    pub model_matrix: Mat4,
    pub view_matrix: Mat4,
    pub projection_matrix: Mat4,
    pub viewport_matrix: Mat4,
    /// Seconds since the start.
    pub time: Fixed,
    /// The procedural surface to shade with, if any.
    pub planet_shader: Option<PlanetShader>,
    /// The object drawn is a star and shines by itself. A planet surface,
    /// where one is selected, takes precedence.
    pub is_star: bool,
}

impl Uniforms {
    /// Identity matrices, time zero and no special shader.
    pub fn new() -> (u: Uniforms)
        ensures
            u == (Uniforms {
                model_matrix: identity(),
                view_matrix: identity(),
                projection_matrix: identity(),
                viewport_matrix: identity(),
                time: 0,
                planet_shader: None,
                is_star: false,
            }),
    {
        Uniforms {
            model_matrix: Mat4::identity(),
            view_matrix: Mat4::identity(),
            projection_matrix: Mat4::identity(),
            viewport_matrix: Mat4::identity(),
            time: 0,
            planet_shader: None,
            is_star: false,
        }
    }
}

/// The matrix that maps normalized device coordinates to a screen of
/// `width` by `height` pixels: `x' = x/2 * width + width/2`,
/// `y' = -y/2 * height + height/2`, and `z` passes through.
pub open spec fn viewport_matrix(width: Fixed, height: Fixed) -> Mat4 {
    let half_width = trunc_div(width as int, 2) as i32;
    let half_height = trunc_div(height as int, 2) as i32;
    Mat4 {
        r0: Vec4 { x: half_width, y: 0, z: 0, w: half_width },
        r1: Vec4 { x: 0, y: (-half_height) as i32, z: 0, w: half_height },
        r2: Vec4 { x: 0, y: 0, z: ONE, w: 0 },
        r3: Vec4 { x: 0, y: 0, z: 0, w: ONE },
    }
}

/// The viewport matrix for a screen of `width` by `height` pixels, both
/// given as fixed-point numbers.
pub fn create_viewport_matrix(width: Fixed, height: Fixed) -> (m: Mat4)
    ensures
        m == viewport_matrix(width, height),
{
    let half_width: i32 = width / 2;
    let half_height: i32 = height / 2;
    Mat4 {
        r0: Vec4 { x: half_width, y: 0, z: 0, w: half_width },
        r1: Vec4 { x: 0, y: -half_height, z: 0, w: half_height },
        r2: Vec4 { x: 0, y: 0, z: 65536, w: 0 },
        r3: Vec4 { x: 0, y: 0, z: 0, w: 65536 },
    }
}

} // verus!
