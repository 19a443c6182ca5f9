//! The starry background, drawn before anything else in a frame.

use vstd::prelude::*;
use crate::color::{packed, Color};
use crate::framebuffer::Framebuffer;
use crate::random::{random_between, random_chance};
use crate::sprites::{anchor_of, draw_block, in_block, sprite_anchor};
use crate::uniforms::Uniforms;
use crate::fixed::{fx_mul, product, Fixed, PI, TWO_PI};
use crate::vector::{normalized, transformed, Angle, Vec3, Vec4};

verus! {

/// The least brightness of a star.
pub const MIN_BRIGHTNESS: u8 = 150;

/// The brightness that no star reaches.
pub const BRIGHTNESS_LIMIT: u8 = 255;

/// A star of the background: a direction on the sky, not a place in space.
#[derive(Clone, Copy, Debug)]
pub struct Star {
    pub direction: Vec3,
    /// The value of all three color channels.
    pub brightness: u8,
    /// The side of the block that the star is drawn as, in pixels.
    pub size: u8,
}

/// A set of background stars.
pub struct Skybox {
    stars: Vec<Star>,
}

/// The direction on the sky at the given azimuth and polar angle:
/// `(sin(polar) cos(azimuth), sin(polar) sin(azimuth), cos(polar))`, scaled
/// to unit length.
pub open spec fn sky_direction(azimuth: Angle, polar: Angle) -> Vec3 {
    normalized(
        Vec3 {
            x: product(polar.sin as int, azimuth.cos as int) as i32,
            y: product(polar.sin as int, azimuth.sin as int) as i32,
            z: polar.cos,
        },
    )
}

/// `star` is a star as it is made: in the direction of an azimuth from
/// zero up to twice pi and a polar angle from zero up to pi, for sines and
/// cosines that `trig` returned for the two, with a brightness from
/// `MIN_BRIGHTNESS` up to `BRIGHTNESS_LIMIT`, and one or two pixels wide.
pub open spec fn star_made<T: Fn(Fixed) -> Angle>(star: Star, trig: &T) -> bool {
    &&& exists|theta: Fixed, phi: Fixed, azimuth: Angle, polar: Angle|
        #![trigger call_ensures(trig, (theta,), azimuth), call_ensures(trig, (phi,), polar)]
        {
            &&& 0 <= theta < TWO_PI
            &&& 0 <= phi < PI
            &&& call_ensures(trig, (theta,), azimuth)
            &&& call_ensures(trig, (phi,), polar)
            &&& star.direction == sky_direction(azimuth, polar)
        }
    &&& MIN_BRIGHTNESS <= star.brightness < BRIGHTNESS_LIMIT
    &&& (star.size == 1 || star.size == 2)
}

/// The clip-space position of a star: its direction, with a fourth
/// component of zero so that the camera's place does not move it, through the view and
/// then the projection matrix.
pub open spec fn star_clip(star: Star, u: Uniforms) -> Vec4 {
    transformed(
        u.projection_matrix,
        transformed(
            u.view_matrix,
            Vec4 { x: star.direction.x, y: star.direction.y, z: star.direction.z, w: 0 },
        ),
    )
}

/// The star is in view and its block holds the pixel `(px, py)`.
pub open spec fn star_covers(star: Star, u: Uniforms, px: int, py: int) -> bool {
    match anchor_of(star_clip(star, u), u.viewport_matrix, false) {
        Some(a) => in_block(a.x as int, a.y as int, star.size as int, px, py),
        None => false,
    }
}

/// The grey of a star.
pub open spec fn star_color(star: Star) -> Color {
    Color { r: star.brightness, g: star.brightness, b: star.brightness }
}

/// The packed color of the pixel `(px, py)` once the stars have been drawn
/// in order over a pixel that held `under`: the color of the last star that
/// covers the pixel, if there is one.
pub open spec fn sky_pixel(under: u32, stars: Seq<Star>, u: Uniforms, px: int, py: int) -> u32
    decreases stars.len(),
{
    if stars.len() == 0 {
        under
    } else if star_covers(stars.last(), u, px, py) {
        packed(star_color(stars.last())) as u32
    } else {
        sky_pixel(under, stars.drop_last(), u, px, py)
    }
}

impl View for Skybox {
    type V = Seq<Star>;

    closed spec fn view(&self) -> Seq<Star> {
        self.stars@
    }
}

impl Skybox {
    /// A sky of `star_count` stars in random directions. Each star gets a
    /// random azimuth below twice pi and a random polar angle below pi,
    /// whose sines and cosines `trig` is asked for, a random brightness from
    /// `MIN_BRIGHTNESS` up to, but not including, `BRIGHTNESS_LIMIT`, and one
    /// star in ten is two pixels wide.
    pub fn new<T: Fn(Fixed) -> Angle>(star_count: usize, trig: &T) -> (sky: Skybox)
        requires
            forall|a: Fixed| call_requires(trig, (a,)),
        ensures
            sky@.len() == star_count,
            forall|i: int| 0 <= i < sky@.len() ==> star_made(#[trigger] sky@[i], trig),
    {
        let mut stars: Vec<Star> = Vec::new();
        let mut i: usize = 0;
        while i < star_count
            invariant
                i <= star_count,
                forall|a: Fixed| call_requires(trig, (a,)),
                stars@.len() == i,
                forall|j: int| 0 <= j < i ==> star_made(#[trigger] stars@[j], trig),
            decreases star_count - i,
        {
            let theta: Fixed = random_between(0, 411775);
            let phi: Fixed = random_between(0, 205887);
            let azimuth: Angle = trig(theta);
            let polar: Angle = trig(phi);
            let direction: Vec3 = Vec3 {
                x: fx_mul(polar.sin, azimuth.cos),
                y: fx_mul(polar.sin, azimuth.sin),
                z: polar.cos,
            }.normalize();
            let brightness: u8 = random_between(150, 255) as u8;
            let size: u8 = if random_chance(1, 10) {
                2
            } else {
                1
            };
            let star: Star = Star { direction, brightness, size };
            let ghost earlier = stars@;
            stars.push(star);
            proof {
                assert(call_ensures(trig, (theta,), azimuth));
                assert(call_ensures(trig, (phi,), polar));
                assert(direction == sky_direction(azimuth, polar));
                assert(star_made(star, trig));
                assert forall|j: int| 0 <= j < i + 1 implies star_made(
                    #[trigger] stars@[j],
                    trig,
                ) by {
                    if j < i {
                        assert(stars@[j] == earlier[j]);
                    }
                }
            }
            i += 1;
        }
        Skybox { stars }
    }

    /// A sky of the given stars.
    pub fn from_stars(stars: Vec<Star>) -> (sky: Skybox)
        ensures
            sky@ == stars@,
    {
        Skybox { stars }
    }

    /// The number of stars.
    pub fn len(&self) -> (n: usize)
        ensures
            n == self@.len(),
    {
        self.stars.len()
    }

    /// The star at position `i`, if there are that many.
    pub fn star(&self, i: usize) -> (s: Option<Star>)
        ensures
            s == if i < self@.len() {
                Some(self@[i as int])
            } else {
                None
            },
    {
        if i < self.stars.len() {
            Some(self.stars[i])
        } else {
            None
        }
    }

    /// Draws the stars in order, each as a grey block anchored where its
    /// direction projects to. The sky is exempt from the depth test: no
    /// depth is read or written, and a star out of view draws nothing.
    pub fn render(&self, framebuffer: &mut Framebuffer, uniforms: &Uniforms)
        requires
            old(framebuffer).wf(),
        ensures
            final(framebuffer).wf(),
            final(framebuffer)@.width == old(framebuffer)@.width,
            final(framebuffer)@.height == old(framebuffer)@.height,
            final(framebuffer)@.background == old(framebuffer)@.background,
            final(framebuffer)@.depths == old(framebuffer)@.depths,
            forall|px: int, py: int|
                old(framebuffer)@.contains(px, py) ==> #[trigger] final(framebuffer)@.color_at(px, py)
                    == sky_pixel(old(framebuffer)@.color_at(px, py), self@, *uniforms, px, py),
    {
        let mut i: usize = 0;
        while i < self.stars.len()
            invariant
                i <= self.stars.len(),
                framebuffer.wf(),
                framebuffer@.width == old(framebuffer)@.width,
                framebuffer@.height == old(framebuffer)@.height,
                framebuffer@.background == old(framebuffer)@.background,
                framebuffer@.depths == old(framebuffer)@.depths,
                forall|px: int, py: int|
                    old(framebuffer)@.contains(px, py) ==> #[trigger] framebuffer@.color_at(px, py)
                        == sky_pixel(
                        old(framebuffer)@.color_at(px, py),
                        self.stars@.take(i as int),
                        *uniforms,
                        px,
                        py,
                    ),
            decreases self.stars.len() - i,
        {
            let star: Star = self.stars[i];
            let view_dir: Vec4 = uniforms.view_matrix.transform(
                &Vec4 { x: star.direction.x, y: star.direction.y, z: star.direction.z, w: 0 },
            );
            let clip_pos: Vec4 = uniforms.projection_matrix.transform(&view_dir);
            let ghost before = framebuffer@;
            match sprite_anchor(&clip_pos, &uniforms.viewport_matrix, false) {
                Some(a) => {
                    let color: Color = Color::new(star.brightness, star.brightness, star.brightness);
                    draw_block(framebuffer, a.x, a.y, star.size as usize, &color);
                },
                None => {},
            }
            proof {
                let done = self.stars@.take(i as int + 1);
                assert(done.last() == star);
                assert(done.drop_last() =~= self.stars@.take(i as int));
                assert forall|px: int, py: int|
                    old(framebuffer)@.contains(px, py) implies #[trigger] framebuffer@.color_at(
                    px,
                    py,
                ) == sky_pixel(old(framebuffer)@.color_at(px, py), done, *uniforms, px, py) by {
                    assert(before.contains(px, py));
                }
            }
            i += 1;
        }
        proof {
            assert(self.stars@.take(self.stars@.len() as int) =~= self.stars@);
        }
    }
}

} // verus!
