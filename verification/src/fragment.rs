//! Fragments: what the rasterizer hands to the fragment stage for one pixel.

use vstd::prelude::*;
use crate::color::Color;
use crate::fixed::Fixed;
use crate::vector::Vec3;

verus! {

/// The interpolated attributes of one covered pixel of one triangle.
#[derive(Clone, Copy, Debug)]
pub struct Fragment {
    /// The pixel, as column and row.
    pub position: (usize, usize),
    /// Depth after the perspective divide; lower is nearer.
    pub depth: Fixed,
    pub color: Color,
    /// The interpolated normal, scaled back to unit length.
    pub normal: Vec3,
    /// Kept for light attenuation; the shaders do not read it.
    pub intensity: Fixed,
}

impl Fragment {
    /// A black fragment with a zero normal and full intensity.
    pub fn new(x: usize, y: usize, depth: Fixed) -> (f: Fragment)
        ensures
            f == (Fragment {
                position: (x, y),
                depth,
                color: Color { r: 0, g: 0, b: 0 },
                normal: Vec3 { x: 0, y: 0, z: 0 },
                intensity: 65536,
            }),
    {
        Fragment {
            position: (x, y),
            depth,
            color: Color::black(),
            normal: Vec3 { x: 0, y: 0, z: 0 },
            intensity: 65536,
        }
    }
}

} // verus!
