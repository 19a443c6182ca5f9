//! The sine-product noise of the planet surfaces, and where the shaders
//! take their waves and noise.
//!
//! Sine, cosine and coherent noise are not computed here: two functions of
//! the caller are asked for them, one for the sine and cosine of an angle
//! and one for the coherent noise at a point.

use vstd::prelude::*;
use crate::fixed::{
    divide_wide, fx_mul, magnitude, product, saturate, saturated, trunc_div, wide_product, Fixed,
    ONE,
};
use crate::vector::{Angle, Vec3};

verus! {

/// A fixed-point number times a whole number, saturated.
pub open spec fn times(v: Fixed, k: int) -> Fixed {
    saturated(v * k) as i32
}

/// The sine-product noise
/// `|(sin(a)cos(b) + sin(b)cos(c) + sin(c)cos(a)) / 3|`
/// for three angles given by their sines and cosines.
pub open spec fn sine_product_of(a: Angle, b: Angle, c: Angle) -> int {
    saturated(
        magnitude(
            trunc_div(
                product(a.sin as int, b.cos as int) + product(b.sin as int, c.cos as int) + product(
                    c.sin as int,
                    a.cos as int,
                ),
                3,
            ),
        ),
    )
}

/// The angle opposite to `a`: its sine has the other sign, its cosine is
/// the same.
pub open spec fn opposite(a: Angle) -> Angle {
    Angle { sin: (-a.sin) as i32, cos: a.cos }
}

/// A sine or cosine lies between -1 and 1.
pub open spec fn unit_range(v: Fixed) -> bool {
    -ONE <= v <= ONE
}

/// The sine-product noise is the same when the three angles change places
/// in a circle, and, for sines and cosines between -1 and 1, when all three
/// angles are replaced by their opposites: the noise at a point is the
/// noise at the point mirrored through the origin, and at the point with
/// its coordinates moved on by one. Beyond that range a product may
/// saturate, and then the two signs are no longer alike.
pub proof fn lemma_sine_product_symmetries(a: Angle, b: Angle, c: Angle)
    ensures
        sine_product_of(b, c, a) == sine_product_of(a, b, c),
        sine_product_of(c, a, b) == sine_product_of(a, b, c),
        unit_range(a.sin) && unit_range(a.cos) && unit_range(b.sin) && unit_range(b.cos)
            && unit_range(c.sin) && unit_range(c.cos) ==> sine_product_of(
            opposite(a),
            opposite(b),
            opposite(c),
        ) == sine_product_of(a, b, c),
{
    if unit_range(a.sin) && unit_range(a.cos) && unit_range(b.sin) && unit_range(b.cos)
        && unit_range(c.sin) && unit_range(c.cos) {
        lemma_opposite_product(a.sin as int, b.cos as int);
        lemma_opposite_product(b.sin as int, c.cos as int);
        lemma_opposite_product(c.sin as int, a.cos as int);
    }
}

/// With factors between -1 and 1, the product of the opposite is the
/// opposite of the product.
proof fn lemma_opposite_product(s: int, c: int)
    requires
        -ONE <= s <= ONE,
        -ONE <= c <= ONE,
    ensures
        product(-s, c) == -product(s, c),
        -ONE <= product(s, c) <= ONE,
{
    crate::fixed::lemma_product_bound(s, c, ONE as int, ONE as int);
    assert((-s) * c == -(s * c)) by (nonlinear_arith);
    assert(ONE * ONE == 0x1_0000_0000) by (nonlinear_arith);
    crate::fixed::lemma_trunc_div_bounds(s * c, ONE as int);
    crate::fixed::lemma_trunc_div_bounds(-(s * c), ONE as int);
    crate::fixed::lemma_trunc_div_monotonic(s * c, ONE * ONE, ONE as int);
    crate::fixed::lemma_trunc_div_monotonic(-(ONE * ONE), s * c, ONE as int);
    crate::fixed::lemma_trunc_div_exact(ONE as int, ONE as int);
    crate::fixed::lemma_trunc_div_exact(-ONE as int, ONE as int);
    assert((-ONE) * ONE == -(ONE * ONE)) by (nonlinear_arith);
}

/// `grain` is the sine-product noise at the point `p`: that of the angles
/// `50 * p.x`, `50 * p.y` and `50 * p.z`, with sines and cosines that `trig`
/// returned for them.
pub open spec fn grain_at<T: Fn(Fixed) -> Angle>(p: Vec3, trig: &T, grain: Fixed) -> bool {
    exists|a: Angle, b: Angle, c: Angle|
        {
            &&& call_ensures(trig, (times(p.x, 50),), a)
            &&& call_ensures(trig, (times(p.y, 50),), b)
            &&& call_ensures(trig, (times(p.z, 50),), c)
            &&& grain == #[trigger] sine_product_of(a, b, c)
        }
}

/// `wave` is a sine that `trig` returned for `angle`.
pub open spec fn sine_at<T: Fn(Fixed) -> Angle>(angle: Fixed, trig: &T, wave: Fixed) -> bool {
    exists|a: Angle| #[trigger] call_ensures(trig, (angle,), a) && wave == a.sin
}

/// A vector times a whole number, saturated.
pub open spec fn stretched(p: Vec3, k: int) -> Vec3 {
    Vec3 { x: times(p.x, k), y: times(p.y, k), z: times(p.z, k) }
}

/// A fixed-point number times a whole number.
pub fn scale_by(v: Fixed, k: i32) -> (r: Fixed)
    ensures
        r == times(v, k as int),
{
    saturate(wide_product(v, k) as i128)
}

/// A vector times a whole number.
pub fn stretch(p: &Vec3, k: i32) -> (r: Vec3)
    ensures
        r == stretched(*p, k as int),
{
    Vec3 { x: scale_by(p.x, k), y: scale_by(p.y, k), z: scale_by(p.z, k) }
}

/// The sine-product noise for three angles given by their sines and
/// cosines.
pub fn sine_product(a: &Angle, b: &Angle, c: &Angle) -> (r: Fixed)
    ensures
        r == sine_product_of(*a, *b, *c),
{
    let x: i128 = fx_mul(a.sin, b.cos) as i128;
    let y: i128 = fx_mul(b.sin, c.cos) as i128;
    let z: i128 = fx_mul(c.sin, a.cos) as i128;
    let mean: i128 = divide_wide(x + y + z, 3);
    saturate(
        if mean < 0 {
            -mean
        } else {
            mean
        },
    )
}

/// The sine-product noise at the point `p`. `trig` is asked for the sines
/// and cosines of fifty times each coordinate of the point.
pub fn simple_noise<T: Fn(Fixed) -> Angle>(p: &Vec3, trig: &T) -> (r: Fixed)
    requires
        forall|a: Fixed| call_requires(trig, (a,)),
    ensures
        grain_at(*p, trig, r),
{
    let a: Angle = trig(scale_by(p.x, 50));
    let b: Angle = trig(scale_by(p.y, 50));
    let c: Angle = trig(scale_by(p.z, 50));
    sine_product(&a, &b, &c)
}

/// The sine of an angle, asked of `trig`.
pub fn sine<T: Fn(Fixed) -> Angle>(angle: Fixed, trig: &T) -> (r: Fixed)
    requires
        forall|a: Fixed| call_requires(trig, (a,)),
    ensures
        sine_at(angle, trig, r),
{
    let a: Angle = trig(angle);
    a.sin
}

} // verus!
