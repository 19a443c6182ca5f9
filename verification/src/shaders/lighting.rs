//! The one directional light that every shader shares.

use vstd::prelude::*;
use crate::color::{scaled_by_ratio, Color};
use crate::fixed::{clamp, lemma_trunc_div_exact, trunc_div, wide_product, Fixed, ONE};
use crate::vector::{dot3, Vec3};

verus! {

/// The direction of the light: straight along the camera's forward axis.
pub open spec fn light_direction() -> Vec3 {
    Vec3 { x: 0, y: 0, z: (-ONE) as i32 }
}

/// How directly a surface with the given normal faces the light: the dot
/// product of normal and light direction, and zero where the surface faces
/// away.
pub open spec fn facing(normal: Vec3) -> int {
    let d = dot3(normal, light_direction());
    if d < 0 {
        0
    } else {
        d
    }
}

/// A light level, counted in units of 1/655360: a tenth of the unit of
/// `Fixed`. In these units `0.3 + 0.7 x` is a whole number for every
/// fixed-point `x`, so that a level is never rounded before it is applied.
pub type Level = i32;

/// The level of full light: 1.0.
pub const FULL: Level = 655360;

/// `tenths / 10 + (1 - tenths / 10) * intensity`, limited to the interval
/// from 0 to 1: the level of the light on a surface, of which `tenths`
/// tenths are ambient.
pub open spec fn lit(tenths: int, intensity: int) -> int {
    clamp(tenths * ONE + (10 - tenths) * intensity, 0, FULL as int)
}

/// A color under light of the given level: every channel times the level,
/// rounded toward zero once.
pub open spec fn lit_color(c: Color, level: int) -> Color {
    scaled_by_ratio(c, level, FULL as int)
}

/// A hundred times the factor that a procedural surface is scaled by:
/// `0.3 + 0.7 * diffuse` plus `emission_tenths / 10` of glow, for a diffuse
/// level, in units of 1/6553600.
pub open spec fn surface_scale(diffuse: int, emission_tenths: int) -> int {
    30 * ONE + 7 * diffuse + 10 * emission_tenths * ONE
}

/// The color of a procedural surface with the given base color: every
/// channel times `0.3 + 0.7 * diffuse + emission_tenths / 10`, rounded
/// toward zero once and limited to 255.
pub open spec fn surface_color(base: Color, diffuse: int, emission_tenths: int) -> Color {
    scaled_by_ratio(base, surface_scale(diffuse, emission_tenths), 10 * FULL)
}

/// Multiplying dividend and divisor by the same positive number changes
/// no quotient.
pub proof fn lemma_ratio_reduces(x: int, d: int, k: int)
    requires
        d > 0,
        k > 0,
    ensures
        trunc_div(x * k, d * k) == trunc_div(x, d),
{
    assert(d * k > 0) by (nonlinear_arith)
        requires
            d > 0,
            k > 0,
    ;
    let m: int = if x >= 0 { x } else { -x };
    assert(m * k >= 0 && (x >= 0 ==> x * k >= 0) && (x < 0 ==> x * k < 0 && -(x * k) == m * k))
        by (nonlinear_arith)
        requires
            m == if x >= 0 { x } else { -x },
            k > 0,
    ;
    vstd::arithmetic::div_mod::lemma_div_multiples_vanish_quotient(k, m, d);
    assert(k * m == m * k && k * d == d * k) by (nonlinear_arith);
}

/// A surface whose normal is the light direction faces the light fully,
/// and one whose normal is the opposite does not face it at all. Fully
/// faced, a surface is fully lit whatever the ambient share, and not faced
/// at all it keeps the ambient share: 0.3 of three tenths, 0.2 of two.
pub proof fn lemma_light_extremes()
    ensures
        facing(Vec3 { x: 0, y: 0, z: (-ONE) as i32 }) == ONE,
        facing(Vec3 { x: 0, y: 0, z: ONE }) == 0,
        forall|tenths: int| 0 <= tenths <= 10 ==> #[trigger] lit(tenths, ONE as int) == FULL,
        lit(3, 0) == 3 * ONE,
        lit(2, 0) == 2 * ONE,
        forall|c: Color| #[trigger] lit_color(c, FULL as int) == c,
        forall|c: Color| #[trigger]
            lit_color(c, 3 * ONE) == (Color {
                r: (c.r * 3 / 10) as u8,
                g: (c.g * 3 / 10) as u8,
                b: (c.b * 3 / 10) as u8,
            }),
{
    assert(0 * 0 + 0 * 0 + (-ONE) * (-ONE) == 0x1_0000_0000) by (nonlinear_arith);
    assert(0 * 0 + 0 * 0 + ONE * (-ONE) == -0x1_0000_0000) by (nonlinear_arith);
    assert forall|tenths: int| 0 <= tenths <= 10 implies #[trigger] lit(tenths, ONE as int)
        == FULL by {
        assert(tenths * ONE + (10 - tenths) * ONE == 10 * ONE) by (nonlinear_arith);
    }
    assert forall|c: Color| #[trigger] lit_color(c, FULL as int) == c by {
        lemma_trunc_div_exact(c.r as int, FULL as int);
        lemma_trunc_div_exact(c.g as int, FULL as int);
        lemma_trunc_div_exact(c.b as int, FULL as int);
    }
    assert forall|c: Color| #[trigger]
        lit_color(c, 3 * ONE) == (Color {
            r: (c.r * 3 / 10) as u8,
            g: (c.g * 3 / 10) as u8,
            b: (c.b * 3 / 10) as u8,
        }) by {
        lemma_ratio_reduces(c.r * 3, 10, ONE as int);
        lemma_ratio_reduces(c.g * 3, 10, ONE as int);
        lemma_ratio_reduces(c.b * 3, 10, ONE as int);
        assert(c.r * (3 * ONE) == (c.r * 3) * ONE && c.g * (3 * ONE) == (c.g * 3) * ONE && c.b * (3
            * ONE) == (c.b * 3) * ONE) by (nonlinear_arith);
    }
}

/// How directly a surface with the given normal faces the light.
pub fn facing_light(normal: &Vec3) -> (r: Fixed)
    ensures
        r == facing(*normal),
        0 <= r,
{
    let light: Vec3 = Vec3 { x: 0, y: 0, z: -65536 };
    let d: Fixed = normal.dot(&light);
    if d < 0 {
        0
    } else {
        d
    }
}

/// The level of the light on a surface, of which `tenths` tenths are
/// ambient.
pub fn light_level(tenths: u8, intensity: Fixed) -> (r: Level)
    ensures
        r == lit(tenths as int, intensity as int),
        0 <= r <= FULL,
{
    let direct: i64 = wide_product(10 - (tenths as i32), intensity);
    let n: i128 = (tenths as i128) * 65536 + (direct as i128);
    if n < 0 {
        0
    } else if n > 655360 {
        655360
    } else {
        n as i32
    }
}

/// A color under light of the given level.
pub fn light(color: &Color, level: Level) -> (c: Color)
    ensures
        c == lit_color(*color, level as int),
{
    color.scale_ratio(level as i64, 655360)
}

/// A hundred times the factor that a procedural surface is scaled by.
pub fn surface_factor(diffuse: Level, emission_tenths: u8) -> (r: i64)
    ensures
        r == surface_scale(diffuse as int, emission_tenths as int),
{
    30 * 65536 + 7 * (diffuse as i64) + 10 * (emission_tenths as i64) * 65536
}

/// The color of a procedural surface with the given base color under the
/// given diffuse level.
pub fn surface(base: &Color, diffuse: Level, emission_tenths: u8) -> (c: Color)
    ensures
        c == surface_color(*base, diffuse as int, emission_tenths as int),
{
    base.scale_ratio(surface_factor(diffuse, emission_tenths), 6553600)
}

} // verus!
