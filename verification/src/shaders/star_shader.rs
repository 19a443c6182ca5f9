//! The surface of a star: turbulent, and pulsing with time.

use vstd::prelude::*;
use crate::color::{mixed_by_ratio, scaled_by_ratio, Color};
use crate::fixed::{clamp, divide_wide, saturate, saturated, trunc_div, Fixed, ONE};
use crate::fragment::Fragment;
use crate::shaders::lighting::{facing, facing_light};
use crate::shaders::noise::{scale_by, sine, sine_at, times};
use crate::uniforms::Uniforms;
use crate::vector::{Angle, Vec3};

verus! {

/// Twenty times how far a fragment is from the lit center of the disc,
/// with turbulence added: the distance `1 - facing` plus the turbulence
/// `(noise * 0.5 + 0.5) * 0.3` of a coherent-noise value between -1 and 1,
/// limited to the interval from 0 to 1, in units of 1/1310720.
pub open spec fn star_distance(f: Fragment, noise: int) -> int {
    let away = if ONE - facing(f.normal) < 0 {
        0
    } else {
        ONE - facing(f.normal)
    };
    clamp(20 * away + 3 * (noise + ONE), 0, 20 * ONE)
}

/// Twenty times the brightness pulse for the wave `sin(1.5 * time)`:
/// `wave * 0.15 + 1`, and at least 0.85, in units of 1/1310720.
pub open spec fn pulse_of(wave: int) -> int {
    if 20 * ONE + 3 * wave < 17 * ONE {
        17 * ONE
    } else {
        20 * ONE + 3 * wave
    }
}

/// The color of a fragment of a star for a coherent-noise value and a
/// wave: yellow at the center, orange halfway out and pink at the edge,
/// mixed by twice the distance in the inner half and by twice the distance
/// beyond one half in the outer, and then times the pulse. Distance and
/// pulse are applied without being rounded first.
pub open spec fn star_color(f: Fragment, noise: int, wave: int) -> Color {
    let t = star_distance(f, noise);
    let core = Color { r: 255, g: 200, b: 0 };
    let mid = Color { r: 255, g: 100, b: 0 };
    let rim = Color { r: 255, g: 0, b: 128 };
    let color = if t < 10 * ONE {
        mixed_by_ratio(core, mid, t, 10 * ONE)
    } else {
        mixed_by_ratio(mid, rim, t - 10 * ONE, 10 * ONE)
    };
    scaled_by_ratio(color, pulse_of(wave), 20 * ONE)
}

/// The point at which the coherent noise of a star is taken: three times
/// the normal, moved along `x` by a fifth of the time.
pub open spec fn star_point(normal: Vec3, time: Fixed) -> Vec3 {
    Vec3 {
        x: saturated(normal.x * 3 + trunc_div(time as int, 5)) as i32,
        y: times(normal.y, 3),
        z: times(normal.z, 3),
    }
}

/// The angle whose sine makes a star pulse: one and a half times the time.
pub open spec fn pulse_angle(time: Fixed) -> Fixed {
    saturated(trunc_div(time * 3, 2)) as i32
}

/// `c` is a color of a star at the fragment `f`: that for coherent noise
/// which `noise` returned for the fragment's point, and for a sine which
/// `trig` returned for the pulse angle.
pub open spec fn sun_shaded<T: Fn(Fixed) -> Angle, N: Fn(Fixed, Fixed, Fixed) -> Fixed>(
    f: Fragment,
    u: Uniforms,
    trig: &T,
    noise: &N,
    c: Color,
) -> bool {
    exists|value: Fixed, wave: Fixed|
        {
            &&& #[trigger] call_ensures(
                noise,
                (
                    star_point(f.normal, u.time).x,
                    star_point(f.normal, u.time).y,
                    star_point(f.normal, u.time).z,
                ),
                value,
            )
            &&& #[trigger] sine_at(pulse_angle(u.time), trig, wave)
            &&& c == star_color(f, value as int, wave as int)
        }
}

/// Shades a fragment of a star. Of all the shaders only this one changes
/// with time: `noise` is asked for coherent noise at a point that moves
/// with it, and `trig` for the sine that makes the star pulse.
pub fn sun_shader<T: Fn(Fixed) -> Angle, N: Fn(Fixed, Fixed, Fixed) -> Fixed>(
    fragment: &Fragment,
    uniforms: &Uniforms,
    trig: &T,
    noise: &N,
) -> (c: Color)
    requires
        forall|a: Fixed| call_requires(trig, (a,)),
        forall|x: Fixed, y: Fixed, z: Fixed| call_requires(noise, (x, y, z)),
    ensures
        sun_shaded(*fragment, *uniforms, trig, noise, c),
{
    let base_intensity: Fixed = facing_light(&fragment.normal);
    let x: Fixed = saturate((fragment.normal.x as i128) * 3 + divide_wide(uniforms.time as i128, 5));
    let y: Fixed = scale_by(fragment.normal.y, 3);
    let z: Fixed = scale_by(fragment.normal.z, 3);
    let noise_value: Fixed = noise(x, y, z);
    let away: i64 = if 65536 - (base_intensity as i64) < 0 {
        0
    } else {
        65536 - (base_intensity as i64)
    };
    let sum: i64 = 20 * away + 3 * ((noise_value as i64) + 65536);
    let t: i64 = if sum < 0 {
        0
    } else if sum > 20 * 65536 {
        20 * 65536
    } else {
        sum
    };
    let core_color: Color = Color::new(255, 200, 0);
    let mid_color: Color = Color::new(255, 100, 0);
    let edge_color: Color = Color::new(255, 0, 128);
    let color: Color = if t < 10 * 65536 {
        core_color.lerp_ratio(&mid_color, t, 10 * 65536)
    } else {
        mid_color.lerp_ratio(&edge_color, t - 10 * 65536, 10 * 65536)
    };
    let wave: Fixed = sine(saturate(divide_wide((uniforms.time as i128) * 3, 2)), trig);
    let swing: i64 = 20 * 65536 + 3 * (wave as i64);
    let pulse: i64 = if swing < 17 * 65536 {
        17 * 65536
    } else {
        swing
    };
    let c: Color = color.scale_ratio(pulse, 20 * 65536);
    proof {
        let p = star_point(fragment.normal, uniforms.time);
        assert(x == p.x && y == p.y && z == p.z);
        assert(call_ensures(noise, (p.x, p.y, p.z), noise_value));
        assert(sine_at(pulse_angle(uniforms.time), trig, wave));
        assert(c == star_color(*fragment, noise_value as int, wave as int));
    }
    c
}

} // verus!
