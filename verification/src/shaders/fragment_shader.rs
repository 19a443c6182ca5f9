//! The fragment stage: from interpolated attributes to the final color.

use vstd::prelude::*;
use crate::color::Color;
use crate::fixed::{Fixed, ONE};
use crate::fragment::Fragment;
use crate::shaders::lighting::{
    facing, facing_light, lemma_light_extremes, light, light_level, lit, lit_color, Level, FULL,
};
use crate::vector::{Angle, Vec3};
use crate::shaders::planet_shaders::{planet_shaded, planet_shader};
use crate::shaders::star_shader::{sun_shaded, sun_shader};
use crate::uniforms::Uniforms;

verus! {

/// Tenths of ambient light in the default lighting model.
pub const AMBIENT: u8 = 3;

/// The color under the default model: the interpolated color under three
/// tenths of ambient light plus the light that the surface faces, each
/// channel rounded toward zero once.
pub open spec fn default_color(f: Fragment) -> Color {
    lit_color(f.color, lit(AMBIENT as int, facing(f.normal)))
}

/// Under the default model a fragment that faces the light fully keeps its
/// color, and one that faces fully away keeps three tenths of it.
pub proof fn lemma_default_color_extremes(f: Fragment)
    ensures
        f.normal == (Vec3 { x: 0, y: 0, z: (-ONE) as i32 }) ==> default_color(f) == f.color,
        f.normal == (Vec3 { x: 0, y: 0, z: ONE }) ==> default_color(f) == (Color {
            r: (f.color.r * 3 / 10) as u8,
            g: (f.color.g * 3 / 10) as u8,
            b: (f.color.b * 3 / 10) as u8,
        }),
{
    lemma_light_extremes();
    assert(lit_color(f.color, FULL as int) == f.color);
    assert(lit_color(f.color, 3 * ONE) == (Color {
        r: (f.color.r * 3 / 10) as u8,
        g: (f.color.g * 3 / 10) as u8,
        b: (f.color.b * 3 / 10) as u8,
    }));
}

/// `c` is a color that the fragment stage gives the fragment `f`: that of
/// the selected planet surface, else that of a star if the object is one,
/// else that of the default model.
pub open spec fn shaded<T: Fn(Fixed) -> Angle, N: Fn(Fixed, Fixed, Fixed) -> Fixed>(
    f: Fragment,
    u: Uniforms,
    trig: &T,
    noise: &N,
    c: Color,
) -> bool {
    match u.planet_shader {
        Some(kind) => planet_shaded(f, kind, trig, c),
        None => if u.is_star {
            sun_shaded(f, u, trig, noise, c)
        } else {
            c == default_color(f)
        },
    }
}

/// Runs the fragment stage on one fragment. `trig` is asked for the sines
/// and cosines, and `noise` for the coherent noise, that the selected
/// shader takes its waves and noise from; the default model asks for
/// nothing.
pub fn fragment_shader<T: Fn(Fixed) -> Angle, N: Fn(Fixed, Fixed, Fixed) -> Fixed>(
    fragment: &Fragment,
    uniforms: &Uniforms,
    trig: &T,
    noise: &N,
) -> (c: Color)
    requires
        forall|a: Fixed| call_requires(trig, (a,)),
        forall|x: Fixed, y: Fixed, z: Fixed| call_requires(noise, (x, y, z)),
    ensures
        shaded(*fragment, *uniforms, trig, noise, c),
{
    match uniforms.planet_shader {
        Some(shader_type) => planet_shader(fragment, shader_type, trig),
        None => {
            if uniforms.is_star {
                sun_shader(fragment, uniforms, trig, noise)
            } else {
                let intensity: Fixed = facing_light(&fragment.normal);
                let final_intensity: Level = light_level(3, intensity);
                light(&fragment.color, final_intensity)
            }
        },
    }
}

} // verus!
