//! Colors with 8 bits per channel and saturating arithmetic.

use vstd::prelude::*;
use crate::fixed::{clamp, divide_wide, lemma_product_bound, trunc_div, Fixed, ONE};

verus! {

/// An RGB color with 8 bits per channel.
#[derive(Clone, Copy, Debug, PartialEq, Eq, Structural)]
pub struct Color {
    pub r: u8,
    pub g: u8,
    pub b: u8,
}

/// A channel value times `numerator / denominator`, rounded toward zero
/// once and limited to 0..=255.
pub open spec fn ratio_channel(c: int, numerator: int, denominator: int) -> int
    recommends
        denominator > 0,
{
    clamp(trunc_div(c * numerator, denominator), 0, 255)
}

/// A channel value scaled by the fixed-point factor `k` and limited to 0..=255.
pub open spec fn scaled_channel(c: int, k: int) -> int {
    ratio_channel(c, k, ONE as int)
}

/// The channel `numerator / denominator` of the way from `a` to `b`, with
/// the fraction limited to the interval from 0 to 1 and the result rounded
/// down once.
pub open spec fn ratio_mixed_channel(a: int, b: int, numerator: int, denominator: int) -> int
    recommends
        denominator > 0,
{
    (a * denominator + (b - a) * clamp(numerator, 0, denominator)) / denominator
}

/// The channel a fraction `t` of the way from `a` to `b`, with `t` limited to
/// the interval from 0 to 1 and the result rounded down.
pub open spec fn mixed_channel(a: int, b: int, t: int) -> int {
    ratio_mixed_channel(a, b, t, ONE as int)
}

/// A color with every channel multiplied by `numerator / denominator`.
pub open spec fn scaled_by_ratio(c: Color, numerator: int, denominator: int) -> Color
    recommends
        denominator > 0,
{
    Color {
        r: ratio_channel(c.r as int, numerator, denominator) as u8,
        g: ratio_channel(c.g as int, numerator, denominator) as u8,
        b: ratio_channel(c.b as int, numerator, denominator) as u8,
    }
}

/// The color `numerator / denominator` of the way from `a` to `b`.
pub open spec fn mixed_by_ratio(a: Color, b: Color, numerator: int, denominator: int) -> Color
    recommends
        denominator > 0,
{
    Color {
        r: ratio_mixed_channel(a.r as int, b.r as int, numerator, denominator) as u8,
        g: ratio_mixed_channel(a.g as int, b.g as int, numerator, denominator) as u8,
        b: ratio_mixed_channel(a.b as int, b.b as int, numerator, denominator) as u8,
    }
}

/// A color with every channel scaled by the fixed-point factor `k`.
pub open spec fn scaled(c: Color, k: int) -> Color {
    Color {
        r: scaled_channel(c.r as int, k) as u8,
        g: scaled_channel(c.g as int, k) as u8,
        b: scaled_channel(c.b as int, k) as u8,
    }
}

/// The color a fraction `t` of the way from `a` to `b`.
pub open spec fn mixed(a: Color, b: Color, t: int) -> Color {
    Color {
        r: mixed_channel(a.r as int, b.r as int, t) as u8,
        g: mixed_channel(a.g as int, b.g as int, t) as u8,
        b: mixed_channel(a.b as int, b.b as int, t) as u8,
    }
}

/// The sum of two channel values, limited to 255.
pub open spec fn summed_channel(a: int, b: int) -> int {
    if a + b > 255 {
        255
    } else {
        a + b
    }
}

/// The packed value `0x00RRGGBB` of a color.
pub open spec fn packed(c: Color) -> int {
    c.r * 65536 + c.g * 256 + c.b
}

/// A mix of two channel values lies between them.
pub proof fn lemma_ratio_mixed_between(a: int, b: int, numerator: int, denominator: int)
    requires
        0 <= a <= 255,
        0 <= b <= 255,
        denominator > 0,
    ensures
        a <= b ==> a <= ratio_mixed_channel(a, b, numerator, denominator) <= b,
        b <= a ==> b <= ratio_mixed_channel(a, b, numerator, denominator) <= a,
        numerator <= 0 ==> ratio_mixed_channel(a, b, numerator, denominator) == a,
        numerator >= denominator ==> ratio_mixed_channel(a, b, numerator, denominator) == b,
{
    let u: int = clamp(numerator, 0, denominator);
    let n: int = a * denominator + (b - a) * u;
    let one: int = denominator;
    if a <= b {
        assert(0 <= (b - a) * u <= (b - a) * one) by (nonlinear_arith)
            requires
                0 <= u <= one,
                0 <= b - a,
        ;
    } else {
        assert((b - a) * one <= (b - a) * u <= 0) by (nonlinear_arith)
            requires
                0 <= u <= one,
                b - a <= 0,
        ;
    }
    assert((b - a) * one == b * one - a * one) by (nonlinear_arith);
    let lo: int = if a <= b { a } else { b };
    let hi: int = if a <= b { b } else { a };
    assert(lo * one <= n <= hi * one);
    vstd::arithmetic::div_mod::lemma_div_is_ordered(lo * one, n, one);
    vstd::arithmetic::div_mod::lemma_div_is_ordered(n, hi * one, one);
    vstd::arithmetic::div_mod::lemma_div_multiples_vanish(lo, one);
    vstd::arithmetic::div_mod::lemma_div_multiples_vanish(hi, one);
    assert(lo * one == one * lo) by (nonlinear_arith);
    assert(hi * one == one * hi) by (nonlinear_arith);
    if numerator <= 0 {
        assert((b - a) * u == 0) by (nonlinear_arith)
            requires
                u == 0,
        ;
        vstd::arithmetic::div_mod::lemma_div_multiples_vanish(a, one);
        assert(a * one == one * a) by (nonlinear_arith);
    }
    if numerator >= denominator {
        vstd::arithmetic::div_mod::lemma_div_multiples_vanish(b, one);
        assert(b * one == one * b) by (nonlinear_arith);
    }
}

/// A mix of two channel values lies between them.
pub proof fn lemma_mixed_channel_between(a: int, b: int, t: int)
    requires
        0 <= a <= 255,
        0 <= b <= 255,
    ensures
        a <= b ==> a <= mixed_channel(a, b, t) <= b,
        b <= a ==> b <= mixed_channel(a, b, t) <= a,
        t <= 0 ==> mixed_channel(a, b, t) == a,
        t >= ONE ==> mixed_channel(a, b, t) == b,
{
    lemma_ratio_mixed_between(a, b, t, ONE as int);
}

impl Color {
    /// Black.
    pub fn black() -> (c: Color)
        ensures
            c == (Color { r: 0, g: 0, b: 0 }),
    {
        Color { r: 0, g: 0, b: 0 }
    }

    /// White.
    pub fn white() -> (c: Color)
        ensures
            c == (Color { r: 255, g: 255, b: 255 }),
    {
        Color { r: 255, g: 255, b: 255 }
    }

    /// Pure red.
    pub fn red() -> (c: Color)
        ensures
            c == (Color { r: 255, g: 0, b: 0 }),
    {
        Color { r: 255, g: 0, b: 0 }
    }

    /// Pure green.
    pub fn green() -> (c: Color)
        ensures
            c == (Color { r: 0, g: 255, b: 0 }),
    {
        Color { r: 0, g: 255, b: 0 }
    }

    /// Cyan.
    pub fn cyan() -> (c: Color)
        ensures
            c == (Color { r: 0, g: 255, b: 255 }),
    {
        Color { r: 0, g: 255, b: 255 }
    }

    /// Magenta.
    pub fn magenta() -> (c: Color)
        ensures
            c == (Color { r: 255, g: 0, b: 255 }),
    {
        Color { r: 255, g: 0, b: 255 }
    }

    /// Purple.
    pub fn purple() -> (c: Color)
        ensures
            c == (Color { r: 128, g: 0, b: 128 }),
    {
        Color { r: 128, g: 0, b: 128 }
    }

    /// Bright yellow.
    pub fn neon_yellow() -> (c: Color)
        ensures
            c == (Color { r: 255, g: 255, b: 0 }),
    {
        Color { r: 255, g: 255, b: 0 }
    }

    /// The dark blue that a new framebuffer is cleared to.
    pub fn dark_bg() -> (c: Color)
        ensures
            c == (Color { r: 5, g: 5, b: 15 }),
    {
        Color { r: 5, g: 5, b: 15 }
    }

    pub fn new(r: u8, g: u8, b: u8) -> (c: Color)
        ensures
            c == (Color { r, g, b }),
    {
        Color { r, g, b }
    }

    /// The packed value `0x00RRGGBB`.
    pub fn to_hex(&self) -> (hex: u32)
        ensures
            hex == packed(*self),
            hex <= 0xff_ffff,
    {
        (self.r as u32) * 65536 + (self.g as u32) * 256 + (self.b as u32)
    }

    /// The color whose packed value is the low 24 bits of `hex`.
    pub fn from_hex(hex: u32) -> (c: Color)
        ensures
            c.r == (hex / 65536) % 256,
            c.g == (hex / 256) % 256,
            c.b == hex % 256,
            hex <= 0xff_ffff ==> packed(c) == hex,
    {
        Color {
            r: ((hex / 65536) % 256) as u8,
            g: ((hex / 256) % 256) as u8,
            b: (hex % 256) as u8,
        }
    }

    /// Every channel multiplied by the fixed-point factor `k`, rounded toward
    /// zero and limited to 0..=255. A negative factor gives black.
    pub fn scale(&self, k: Fixed) -> (c: Color)
        ensures
            c == scaled(*self, k as int),
            c.r == scaled_channel(self.r as int, k as int),
            c.g == scaled_channel(self.g as int, k as int),
            c.b == scaled_channel(self.b as int, k as int),
    {
        Color {
            r: scale_channel(self.r, k),
            g: scale_channel(self.g, k),
            b: scale_channel(self.b, k),
        }
    }

    /// The additive blend of two colors: channel by channel the sum,
    /// limited to 255.
    pub fn blend_add(&self, other: &Color) -> (c: Color)
        ensures
            c.r == summed_channel(self.r as int, other.r as int),
            c.g == summed_channel(self.g as int, other.g as int),
            c.b == summed_channel(self.b as int, other.b as int),
    {
        Color {
            r: sum_channel(self.r, other.r),
            g: sum_channel(self.g, other.g),
            b: sum_channel(self.b, other.b),
        }
    }

    /// Every channel multiplied by `numerator / denominator`, rounded toward
    /// zero once and limited to 0..=255: a factor that is no whole number of
    /// fixed-point units is applied without being rounded first.
    pub fn scale_ratio(&self, numerator: i64, denominator: i64) -> (c: Color)
        requires
            denominator > 0,
        ensures
            c == scaled_by_ratio(*self, numerator as int, denominator as int),
    {
        Color {
            r: ratio_of_channel(self.r, numerator, denominator),
            g: ratio_of_channel(self.g, numerator, denominator),
            b: ratio_of_channel(self.b, numerator, denominator),
        }
    }

    /// The color `numerator / denominator` of the way from `self` to
    /// `other`; the fraction is limited to the interval from 0 to 1.
    pub fn lerp_ratio(&self, other: &Color, numerator: i64, denominator: i64) -> (c: Color)
        requires
            denominator > 0,
        ensures
            c == mixed_by_ratio(*self, *other, numerator as int, denominator as int),
    {
        Color {
            r: ratio_mix_channel(self.r, other.r, numerator, denominator),
            g: ratio_mix_channel(self.g, other.g, numerator, denominator),
            b: ratio_mix_channel(self.b, other.b, numerator, denominator),
        }
    }

    /// The color a fraction `t` of the way from `self` to `other`; `t` is
    /// limited to the interval from 0 to 1.
    pub fn lerp(&self, other: &Color, t: Fixed) -> (c: Color)
        ensures
            c == mixed(*self, *other, t as int),
            c.r == mixed_channel(self.r as int, other.r as int, t as int),
            c.g == mixed_channel(self.g as int, other.g as int, t as int),
            c.b == mixed_channel(self.b as int, other.b as int, t as int),
    {
        Color {
            r: mix_channel(self.r, other.r, t),
            g: mix_channel(self.g, other.g, t),
            b: mix_channel(self.b, other.b, t),
        }
    }
}

fn sum_channel(a: u8, b: u8) -> (r: u8)
    ensures
        r == summed_channel(a as int, b as int),
{
    let sum: u16 = (a as u16) + (b as u16);
    if sum > 255 {
        255
    } else {
        sum as u8
    }
}

fn ratio_of_channel(c: u8, numerator: i64, denominator: i64) -> (r: u8)
    requires
        denominator > 0,
    ensures
        r == ratio_channel(c as int, numerator as int, denominator as int),
{
    proof {
        lemma_product_bound(c as int, numerator as int, 255, 0x8000_0000_0000_0000);
    }
    let q: i128 = divide_wide((c as i128) * (numerator as i128), denominator as i128);
    if q < 0 {
        0
    } else if q > 255 {
        255
    } else {
        q as u8
    }
}

fn ratio_mix_channel(a: u8, b: u8, numerator: i64, denominator: i64) -> (r: u8)
    requires
        denominator > 0,
    ensures
        r == ratio_mixed_channel(a as int, b as int, numerator as int, denominator as int),
{
    let u: i64 = if numerator < 0 {
        0
    } else if numerator > denominator {
        denominator
    } else {
        numerator
    };
    proof {
        lemma_ratio_mixed_between(a as int, b as int, numerator as int, denominator as int);
        lemma_product_bound(b as int - a as int, u as int, 255, 0x8000_0000_0000_0000);
        lemma_product_bound(a as int, denominator as int, 255, 0x8000_0000_0000_0000);
    }
    let n: i128 = (a as i128) * (denominator as i128) + ((b as i128) - (a as i128)) * (u as i128);
    proof {
        let d: int = denominator as int;
        let lo: int = if a <= b { a as int } else { b as int };
        assert(0 <= lo * d) by (nonlinear_arith)
            requires
                0 <= lo,
                0 < d,
        ;
        if a <= b {
            assert((b - a) * u >= 0) by (nonlinear_arith)
                requires
                    b - a >= 0,
                    u >= 0,
            ;
        } else {
            assert(a * d + (b - a) * u >= b * d) by (nonlinear_arith)
                requires
                    b - a <= 0,
                    0 <= u <= d,
            ;
            assert(0 <= b * d) by (nonlinear_arith)
                requires
                    0 <= b,
                    0 < d,
            ;
        }
        assert(n >= 0);
    }
    (n / (denominator as i128)) as u8
}

fn scale_channel(c: u8, k: Fixed) -> (r: u8)
    ensures
        r == scaled_channel(c as int, k as int),
{
    ratio_of_channel(c, k as i64, 65536)
}

fn mix_channel(a: u8, b: u8, t: Fixed) -> (r: u8)
    ensures
        r == mixed_channel(a as int, b as int, t as int),
{
    ratio_mix_channel(a, b, t as i64, 65536)
}

} // verus!
