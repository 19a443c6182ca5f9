//! Point sprites: small square blocks drawn where a single point projects
//! to, as used for stars and particles.

use vstd::prelude::*;
use crate::color::{packed, Color};
use crate::fixed::{fx_div, Fixed, ONE};
use crate::framebuffer::{lemma_plot_pixels, Framebuffer};
use crate::pipeline::ndc;
use crate::uniforms::Uniforms;
use crate::vector::{matrix_product, transformed, Mat4, Vec3, Vec4};

verus! {

/// The side of the block that a particle is drawn as, in pixels.
pub const PARTICLE_SIZE: usize = 8;

/// The pixel column or row that holds a screen coordinate: the coordinate
/// cut to a whole number, and zero for a negative one.
pub open spec fn pixel_of(coordinate: int) -> int {
    if coordinate < 0 {
        0
    } else {
        coordinate / (ONE as int)
    }
}

/// Where a sprite is anchored on the screen, and how deep.
pub struct Anchor {
    pub x: usize,
    pub y: usize,
    /// Depth in normalized device coordinates.
    pub depth: Fixed,
}

/// The anchor of a point given in clip space. A point has one only if its
/// `w` is positive and, after the divide by `w`, its `x` and `y` lie between
/// -1 and 1; with `check_depth` its `z` must also lie between 0 and 1.
pub open spec fn anchor_of(clip: Vec4, viewport: Mat4, check_depth: bool) -> Option<Anchor> {
    if clip.w <= 0 {
        None
    } else {
        let n = ndc(clip);
        if -ONE <= n.x <= ONE && -ONE <= n.y <= ONE && (!check_depth || 0 <= n.z <= ONE) {
            let s = transformed(viewport, n);
            Some(
                Anchor {
                    x: pixel_of(s.x as int) as usize,
                    y: pixel_of(s.y as int) as usize,
                    depth: n.z,
                },
            )
        } else {
            None
        }
    }
}

/// The pixel `(px, py)` belongs to the square block of side `size` whose
/// top left pixel is `(x, y)`.
pub open spec fn in_block(x: int, y: int, size: int, px: int, py: int) -> bool {
    x <= px < x + size && y <= py < y + size
}

/// The anchor of a point given in clip space.
pub fn sprite_anchor(clip: &Vec4, viewport: &Mat4, check_depth: bool) -> (r: Option<Anchor>)
    ensures
        r == anchor_of(*clip, *viewport, check_depth),
{
    if clip.w <= 0 {
        return None;
    }
    let n: Vec4 = Vec4 {
        x: fx_div(clip.x, clip.w),
        y: fx_div(clip.y, clip.w),
        z: fx_div(clip.z, clip.w),
        w: 65536,
    };
    let on_screen: bool = -65536 <= n.x && n.x <= 65536 && -65536 <= n.y && n.y <= 65536;
    let in_depth: bool = !check_depth || (0 <= n.z && n.z <= 65536);
    if on_screen && in_depth {
        let s: Vec4 = viewport.transform(&n);
        let x: usize = if s.x < 0 {
            0
        } else {
            (s.x / 65536) as usize
        };
        let y: usize = if s.y < 0 {
            0
        } else {
            (s.y / 65536) as usize
        };
        Some(Anchor { x, y, depth: n.z })
    } else {
        None
    }
}

/// The end of the run of `size` pixels from `start`, cut off at `limit`.
pub open spec fn run_end_of(start: int, size: int, limit: int) -> int {
    if start >= limit {
        start
    } else if start + size < limit {
        start + size
    } else {
        limit
    }
}

fn run_end(start: usize, size: usize, limit: usize) -> (end: usize)
    ensures
        end == run_end_of(start as int, size as int, limit as int),
{
    if start >= limit {
        start
    } else if size < limit - start {
        start + size
    } else {
        limit
    }
}

/// Writes `color` to every pixel of the block of side `size` at `(x, y)`
/// that lies in the buffer, without a depth test and without touching a
/// depth.
pub fn draw_block(framebuffer: &mut Framebuffer, x: usize, y: usize, size: usize, color: &Color)
    requires
        old(framebuffer).wf(),
    ensures
        final(framebuffer).wf(),
        final(framebuffer)@.width == old(framebuffer)@.width,
        final(framebuffer)@.height == old(framebuffer)@.height,
        final(framebuffer)@.background == old(framebuffer)@.background,
        final(framebuffer)@.depths == old(framebuffer)@.depths,
        forall|px: int, py: int|
            old(framebuffer)@.contains(px, py) ==> #[trigger] final(framebuffer)@.color_at(px, py)
                == if in_block(x as int, y as int, size as int, px, py) {
                packed(*color) as u32
            } else {
                old(framebuffer)@.color_at(px, py)
            },
{
    let x_end: usize = run_end(x, size, framebuffer.width);
    let y_end: usize = run_end(y, size, framebuffer.height);
    let mut py: usize = y;
    while py < y_end
        invariant
            framebuffer.wf(),
            y <= py,
            py <= y_end || y_end == y,
            x_end == run_end_of(x as int, size as int, framebuffer.width as int),
            y_end == run_end_of(y as int, size as int, framebuffer.height as int),
            framebuffer@.width == old(framebuffer)@.width,
            framebuffer@.height == old(framebuffer)@.height,
            framebuffer@.background == old(framebuffer)@.background,
            framebuffer@.depths == old(framebuffer)@.depths,
            forall|qx: int, qy: int|
                old(framebuffer)@.contains(qx, qy) ==> #[trigger] framebuffer@.color_at(qx, qy)
                    == if in_block(x as int, y as int, size as int, qx, qy) && qy < py {
                    packed(*color) as u32
                } else {
                    old(framebuffer)@.color_at(qx, qy)
                },
        decreases y_end - py,
    {
        let mut px: usize = x;
        while px < x_end
            invariant
                framebuffer.wf(),
                x <= px,
                px <= x_end || x_end == x,
                y <= py < y_end,
                x_end == run_end_of(x as int, size as int, framebuffer.width as int),
                y_end == run_end_of(y as int, size as int, framebuffer.height as int),
                framebuffer@.width == old(framebuffer)@.width,
                framebuffer@.height == old(framebuffer)@.height,
                framebuffer@.background == old(framebuffer)@.background,
                framebuffer@.depths == old(framebuffer)@.depths,
                forall|qx: int, qy: int|
                    old(framebuffer)@.contains(qx, qy) ==> #[trigger] framebuffer@.color_at(qx, qy)
                        == if in_block(x as int, y as int, size as int, qx, qy) && (qy < py || (qy
                        == py && qx < px)) {
                        packed(*color) as u32
                    } else {
                        old(framebuffer)@.color_at(qx, qy)
                    },
            decreases x_end - px,
        {
            let ghost before = framebuffer@;
            framebuffer.point(px, py, color);
            proof {
                lemma_plot_pixels(before, px as int, py as int, *color);
            }
            px += 1;
        }
        py += 1;
    }
}

/// The clip-space position of a particle at `position`: projection times
/// view, applied to the position with a fourth component of zero.
pub open spec fn particle_clip(position: Vec3, u: Uniforms) -> Vec4 {
    transformed(
        matrix_product(u.projection_matrix, u.view_matrix),
        Vec4 { x: position.x, y: position.y, z: position.z, w: 0 },
    )
}

/// Draws a particle as a block of `PARTICLE_SIZE` pixels a side, anchored
/// where its position projects to. Like the sky, the particle pass is
/// exempt from the depth test: the block is written over whatever is
/// there, and no depth is read or written. A particle behind the camera,
/// off the screen or outside the depth range draws nothing.
pub fn draw_particle(
    position: &Vec3,
    color: &Color,
    uniforms: &Uniforms,
    framebuffer: &mut Framebuffer,
)
    requires
        old(framebuffer).wf(),
    ensures
        final(framebuffer).wf(),
        final(framebuffer)@.width == old(framebuffer)@.width,
        final(framebuffer)@.height == old(framebuffer)@.height,
        final(framebuffer)@.background == old(framebuffer)@.background,
        final(framebuffer)@.depths == old(framebuffer)@.depths,
        match anchor_of(particle_clip(*position, *uniforms), uniforms.viewport_matrix, true) {
            Some(a) => forall|px: int, py: int|
                old(framebuffer)@.contains(px, py) ==> #[trigger] final(framebuffer)@.color_at(
                    px,
                    py,
                ) == if in_block(a.x as int, a.y as int, PARTICLE_SIZE as int, px, py) {
                    packed(*color) as u32
                } else {
                    old(framebuffer)@.color_at(px, py)
                },
            None => final(framebuffer)@ == old(framebuffer)@,
        },
{
    let pos_4d: Vec4 = Vec4 { x: position.x, y: position.y, z: position.z, w: 0 };
    let clip_pos: Vec4 = uniforms.projection_matrix.times(&uniforms.view_matrix).transform(&pos_4d);
    match sprite_anchor(&clip_pos, &uniforms.viewport_matrix, true) {
        Some(a) => {
            draw_block(framebuffer, a.x, a.y, 8, color);
        },
        None => {},
    }
}

} // verus!
