//! The three procedural planet surfaces.

use vstd::prelude::*;
use crate::celestial::planet::PlanetShader;
use crate::color::{mixed_by_ratio, Color};
use crate::fixed::{Fixed, HALF, ONE};
use crate::fragment::Fragment;
use crate::shaders::lighting::{
    facing, facing_light, light_level, lit, surface, surface_color, Level,
};
use crate::shaders::noise::{
    grain_at, scale_by, simple_noise, sine, sine_at, stretch, stretched, times,
};
use crate::vector::{Angle, Vec3};

verus! {

/// Tenths of ambient light on a planet.
pub const PLANET_AMBIENT: u8 = 2;

/// The diffuse level on a planet's surface with the given normal.
pub open spec fn planet_diffuse(f: Fragment) -> int {
    lit(PLANET_AMBIENT as int, facing(f.normal))
}

/// Rocky surface under the diffuse level `diffuse`: land where the grain
/// is over 0.5 and ocean elsewhere, times `0.3 + 0.7 * diffuse`.
pub open spec fn rocky_color(grain: int, diffuse: int) -> Color {
    let base = if grain > HALF {
        Color { r: 0, g: 200, b: 100 }
    } else {
        Color { r: 0, g: 255, b: 255 }
    };
    surface_color(base, diffuse, 0)
}

/// Gas giant under the diffuse level `diffuse`: bands between magenta and
/// purple that follow the wave `sin(10y)`, mapped from the interval -1..1
/// to 0..1, times `0.3 + 0.7 * diffuse`.
pub open spec fn gaseous_color(wave: int, diffuse: int) -> Color {
    let base = mixed_by_ratio(
        Color { r: 255, g: 0, b: 255 },
        Color { r: 128, g: 0, b: 128 },
        wave + ONE,
        2 * ONE,
    );
    surface_color(base, diffuse, 0)
}

/// Lava world under the diffuse level `diffuse`: dark rock, lava where the
/// grain is over 0.6 and bright lava where it is over 0.8, times
/// `0.3 + 0.7 * diffuse`. Lava glows: it adds 0.3 to the factor.
pub open spec fn lava_color(grain: int, diffuse: int) -> Color {
    let lava = grain * 10 > 6 * ONE;
    let bright = grain * 10 > 8 * ONE;
    let base = if bright {
        Color { r: 255, g: 0, b: 128 }
    } else if lava {
        Color { r: 255, g: 100, b: 0 }
    } else {
        Color { r: 20, g: 20, b: 20 }
    };
    surface_color(
        base,
        diffuse,
        if lava {
            3
        } else {
            0
        },
    )
}

/// `c` is a color of a rocky surface at the fragment `f`: that for the
/// sine-product noise at the fragment's normal.
pub open spec fn rocky_shaded<T: Fn(Fixed) -> Angle>(f: Fragment, diffuse: Level, trig: &T, c: Color)
    -> bool {
    exists|grain: Fixed| #[trigger]
        grain_at(f.normal, trig, grain) && c == rocky_color(grain as int, diffuse as int)
}

/// `c` is a color of a gas giant at the fragment `f`: that for the sine of
/// ten times the `y` of the fragment's normal.
pub open spec fn gaseous_shaded<T: Fn(Fixed) -> Angle>(
    f: Fragment,
    diffuse: Level,
    trig: &T,
    c: Color,
) -> bool {
    exists|wave: Fixed| #[trigger]
        sine_at(times(f.normal.y, 10), trig, wave) && c == gaseous_color(
            wave as int,
            diffuse as int,
        )
}

/// `c` is a color of a lava world at the fragment `f`: that for the
/// sine-product noise at twice the fragment's normal.
pub open spec fn lava_shaded<T: Fn(Fixed) -> Angle>(f: Fragment, diffuse: Level, trig: &T, c: Color)
    -> bool {
    exists|grain: Fixed| #[trigger]
        grain_at(stretched(f.normal, 2), trig, grain) && c == lava_color(
            grain as int,
            diffuse as int,
        )
}

/// `c` is a color of a planet with the given surface at the fragment `f`,
/// under the diffuse light of the default model with two tenths of ambient
/// light.
pub open spec fn planet_shaded<T: Fn(Fixed) -> Angle>(
    f: Fragment,
    kind: PlanetShader,
    trig: &T,
    c: Color,
) -> bool {
    match kind {
        PlanetShader::Rocky => rocky_shaded(f, planet_diffuse(f) as i32, trig, c),
        PlanetShader::Gaseous => gaseous_shaded(f, planet_diffuse(f) as i32, trig, c),
        PlanetShader::Lava => lava_shaded(f, planet_diffuse(f) as i32, trig, c),
    }
}

/// Shades a fragment of a planet. `trig` is asked for the sines and
/// cosines that the surface takes its noise from.
pub fn planet_shader<T: Fn(Fixed) -> Angle>(fragment: &Fragment, shader_type: PlanetShader, trig: &T)
    -> (c: Color)
    requires
        forall|a: Fixed| call_requires(trig, (a,)),
    ensures
        planet_shaded(*fragment, shader_type, trig, c),
{
    let intensity: Fixed = facing_light(&fragment.normal);
    let diffuse: Level = light_level(2, intensity);
    match shader_type {
        PlanetShader::Rocky => rocky_shader(fragment, diffuse, trig),
        PlanetShader::Gaseous => gaseous_shader(fragment, diffuse, trig),
        PlanetShader::Lava => lava_shader(fragment, diffuse, trig),
    }
}

/// Rocky surface under the given diffuse level.
pub fn rocky_shader<T: Fn(Fixed) -> Angle>(fragment: &Fragment, diffuse: Level, trig: &T) -> (c:
    Color)
    requires
        forall|a: Fixed| call_requires(trig, (a,)),
    ensures
        rocky_shaded(*fragment, diffuse, trig, c),
{
    let noise: Fixed = simple_noise(&fragment.normal, trig);
    let ocean_color: Color = Color::cyan();
    let land_color: Color = Color::new(0, 200, 100);
    let base_color: Color = if noise > 32768 {
        land_color
    } else {
        ocean_color
    };
    let c: Color = surface(&base_color, diffuse, 0);
    proof {
        assert(grain_at(fragment.normal, trig, noise));
        assert(c == rocky_color(noise as int, diffuse as int));
    }
    c
}

/// Gas giant under the given diffuse level.
pub fn gaseous_shader<T: Fn(Fixed) -> Angle>(fragment: &Fragment, diffuse: Level, trig: &T) -> (c:
    Color)
    requires
        forall|a: Fixed| call_requires(trig, (a,)),
    ensures
        gaseous_shaded(*fragment, diffuse, trig, c),
{
    let wave: Fixed = sine(scale_by(fragment.normal.y, 10), trig);
    let color1: Color = Color::magenta();
    let color2: Color = Color::purple();
    let base_color: Color = color1.lerp_ratio(&color2, (wave as i64) + 65536, 2 * 65536);
    let c: Color = surface(&base_color, diffuse, 0);
    proof {
        assert(sine_at(times(fragment.normal.y, 10), trig, wave));
        assert(c == gaseous_color(wave as int, diffuse as int));
    }
    c
}

/// Lava world under the given diffuse level.
pub fn lava_shader<T: Fn(Fixed) -> Angle>(fragment: &Fragment, diffuse: Level, trig: &T) -> (c:
    Color)
    requires
        forall|a: Fixed| call_requires(trig, (a,)),
    ensures
        lava_shaded(*fragment, diffuse, trig, c),
{
    let twice: Vec3 = stretch(&fragment.normal, 2);
    let noise: Fixed = simple_noise(&twice, trig);
    let dark_rock: Color = Color::new(20, 20, 20);
    let dull_lava: Color = Color::new(255, 100, 0);
    let bright_lava: Color = Color::new(255, 0, 128);
    let tenfold: i64 = (noise as i64) * 10;
    let lava: bool = tenfold > 6 * 65536;
    let bright: bool = tenfold > 8 * 65536;
    let base_color: Color = if bright {
        bright_lava
    } else if lava {
        dull_lava
    } else {
        dark_rock
    };
    let emission: u8 = if lava {
        3
    } else {
        0
    };
    let c: Color = surface(&base_color, diffuse, emission);
    proof {
        assert(grain_at(stretched(fragment.normal, 2), trig, noise));
        assert(c == lava_color(noise as int, diffuse as int));
    }
    c
}

} // verus!
