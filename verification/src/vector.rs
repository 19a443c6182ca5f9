//! Fixed-point vectors and 4x4 matrices.

use vstd::prelude::*;
use crate::fixed::{
    divide_wide, floor_sqrt, fx_mul, isqrt, isqrt_wide, lemma_floor_sqrt_is_greatest,
    lemma_product_bound, lemma_trunc_div_exact, magnitude, product, saturate, saturated, trunc_div,
    wide_product, Fixed, ONE,
};

verus! {

#[derive(Clone, Copy, Debug, PartialEq, Eq, Structural)]
pub struct Vec2 {
    pub x: Fixed,
    pub y: Fixed,
}

#[derive(Clone, Copy, Debug, PartialEq, Eq, Structural)]
pub struct Vec3 {
    pub x: Fixed,
    pub y: Fixed,
    pub z: Fixed,
}

#[derive(Clone, Copy, Debug, PartialEq, Eq, Structural)]
pub struct Vec4 {
    pub x: Fixed,
    pub y: Fixed,
    pub z: Fixed,
    pub w: Fixed,
}

/// An angle, given by its sine and its cosine. This library computes
/// neither: whoever has the angle hands in both.
#[derive(Clone, Copy, Debug, PartialEq, Eq, Structural)]
pub struct Angle {
    pub sin: Fixed,
    pub cos: Fixed,
}

/// A 4x4 matrix, held as its four rows.
#[derive(Clone, Copy, Debug, PartialEq, Eq, Structural)]
pub struct Mat4 {
    pub r0: Vec4,
    pub r1: Vec4,
    pub r2: Vec4,
    pub r3: Vec4,
}

/// Raw value of the dot product of two 3-vectors: the exact sum of the
/// three products, rounded toward zero once and saturated.
pub open spec fn dot3(a: Vec3, b: Vec3) -> int {
    saturated(trunc_div(a.x * b.x + a.y * b.y + a.z * b.z, ONE as int))
}

/// Raw value of the dot product of two 4-vectors.
pub open spec fn dot4(a: Vec4, b: Vec4) -> int {
    saturated(trunc_div(a.x * b.x + a.y * b.y + a.z * b.z + a.w * b.w, ONE as int))
}

/// The squared length of a vector, in units of 2^-32.
pub open spec fn norm_squared(v: Vec3) -> nat {
    (v.x * v.x + v.y * v.y + v.z * v.z) as nat
}

/// Raw value of the length of a vector, rounded down.
pub open spec fn norm(v: Vec3) -> nat {
    floor_sqrt(norm_squared(v))
}

/// The length of a vector in units of 2^-32, rounded down: sixteen bits
/// finer than the vector's components, so that short vectors keep their
/// direction when they are scaled to unit length.
pub open spec fn fine_norm(v: Vec3) -> nat {
    floor_sqrt(norm_squared(v) * 0x1_0000_0000)
}

/// The vector scaled to unit length, each component rounded toward zero;
/// the zero vector stays zero.
pub open spec fn normalized(v: Vec3) -> Vec3 {
    let len = fine_norm(v) as int;
    if len == 0 {
        Vec3 { x: 0, y: 0, z: 0 }
    } else {
        Vec3 {
            x: trunc_div(v.x * 0x1_0000_0000, len) as i32,
            y: trunc_div(v.y * 0x1_0000_0000, len) as i32,
            z: trunc_div(v.z * 0x1_0000_0000, len) as i32,
        }
    }
}

/// A vector with every component multiplied by the fixed-point factor `k`.
pub open spec fn scaled_vector(v: Vec3, k: int) -> Vec3 {
    Vec3 {
        x: product(v.x as int, k) as i32,
        y: product(v.y as int, k) as i32,
        z: product(v.z as int, k) as i32,
    }
}

/// The sum of two vectors, each component saturated.
pub open spec fn vector_sum(a: Vec3, b: Vec3) -> Vec3 {
    Vec3 {
        x: saturated(a.x + b.x) as i32,
        y: saturated(a.y + b.y) as i32,
        z: saturated(a.z + b.z) as i32,
    }
}

/// The difference of two vectors, each component saturated.
pub open spec fn vector_difference(a: Vec3, b: Vec3) -> Vec3 {
    Vec3 {
        x: saturated(a.x - b.x) as i32,
        y: saturated(a.y - b.y) as i32,
        z: saturated(a.z - b.z) as i32,
    }
}

/// The cross product of two vectors: each component the exact difference
/// of two products, rounded toward zero once and saturated.
pub open spec fn cross_product(a: Vec3, b: Vec3) -> Vec3 {
    Vec3 {
        x: saturated(trunc_div(a.y * b.z - a.z * b.y, ONE as int)) as i32,
        y: saturated(trunc_div(a.z * b.x - a.x * b.z, ONE as int)) as i32,
        z: saturated(trunc_div(a.x * b.y - a.y * b.x, ONE as int)) as i32,
    }
}

/// The horizontal unit vector at a right angle to `forward`:
/// `(-forward.z, 0, forward.x)`, scaled to unit length.
pub open spec fn sideways_of(forward: Vec3) -> Vec3 {
    normalized(Vec3 { x: saturated(-forward.z) as i32, y: 0, z: forward.x })
}

/// The unit vector at a right angle to both `forward` and its sideways
/// vector: their cross product, scaled to unit length.
pub open spec fn upward_of(forward: Vec3) -> Vec3 {
    normalized(cross_product(forward, sideways_of(forward)))
}

/// The identity matrix.
pub open spec fn identity() -> Mat4 {
    Mat4 {
        r0: Vec4 { x: ONE, y: 0, z: 0, w: 0 },
        r1: Vec4 { x: 0, y: ONE, z: 0, w: 0 },
        r2: Vec4 { x: 0, y: 0, z: ONE, w: 0 },
        r3: Vec4 { x: 0, y: 0, z: 0, w: ONE },
    }
}

/// The product of a matrix and a column vector.
pub open spec fn transformed(m: Mat4, v: Vec4) -> Vec4 {
    Vec4 {
        x: dot4(m.r0, v) as i32,
        y: dot4(m.r1, v) as i32,
        z: dot4(m.r2, v) as i32,
        w: dot4(m.r3, v) as i32,
    }
}

/// The four columns of a matrix, as the rows of its transpose.
pub open spec fn transposed(m: Mat4) -> Mat4 {
    Mat4 {
        r0: Vec4 { x: m.r0.x, y: m.r1.x, z: m.r2.x, w: m.r3.x },
        r1: Vec4 { x: m.r0.y, y: m.r1.y, z: m.r2.y, w: m.r3.y },
        r2: Vec4 { x: m.r0.z, y: m.r1.z, z: m.r2.z, w: m.r3.z },
        r3: Vec4 { x: m.r0.w, y: m.r1.w, z: m.r2.w, w: m.r3.w },
    }
}

/// One row of a matrix product: the row vector `row` times the matrix whose
/// columns are the rows of `columns`.
pub open spec fn row_times(row: Vec4, columns: Mat4) -> Vec4 {
    Vec4 {
        x: dot4(row, columns.r0) as i32,
        y: dot4(row, columns.r1) as i32,
        z: dot4(row, columns.r2) as i32,
        w: dot4(row, columns.r3) as i32,
    }
}

/// The matrix product `a * b`, each entry a dot product of a row of `a` and
/// a column of `b`.
pub open spec fn matrix_product(a: Mat4, b: Mat4) -> Mat4 {
    let columns = transposed(b);
    Mat4 {
        r0: row_times(a.r0, columns),
        r1: row_times(a.r1, columns),
        r2: row_times(a.r2, columns),
        r3: row_times(a.r3, columns),
    }
}

/// The product of the upper-left 3x3 block of a matrix and a 3-vector.
pub open spec fn rotated(m: Mat4, v: Vec3) -> Vec3 {
    Vec3 {
        x: dot3(Vec3 { x: m.r0.x, y: m.r0.y, z: m.r0.z }, v) as i32,
        y: dot3(Vec3 { x: m.r1.x, y: m.r1.y, z: m.r1.z }, v) as i32,
        z: dot3(Vec3 { x: m.r2.x, y: m.r2.y, z: m.r2.z }, v) as i32,
    }
}

/// A dot product with a vector that is one in a single place and zero
/// elsewhere picks that component.
pub proof fn lemma_dot4_unit(v: Vec4)
    ensures
        dot4(Vec4 { x: ONE, y: 0, z: 0, w: 0 }, v) == v.x,
        dot4(Vec4 { x: 0, y: ONE, z: 0, w: 0 }, v) == v.y,
        dot4(Vec4 { x: 0, y: 0, z: ONE, w: 0 }, v) == v.z,
        dot4(Vec4 { x: 0, y: 0, z: 0, w: ONE }, v) == v.w,
        dot4(v, Vec4 { x: ONE, y: 0, z: 0, w: 0 }) == v.x,
        dot4(v, Vec4 { x: 0, y: ONE, z: 0, w: 0 }) == v.y,
        dot4(v, Vec4 { x: 0, y: 0, z: ONE, w: 0 }) == v.z,
        dot4(v, Vec4 { x: 0, y: 0, z: 0, w: ONE }) == v.w,
{
    lemma_trunc_div_exact(v.x as int, ONE as int);
    lemma_trunc_div_exact(v.y as int, ONE as int);
    lemma_trunc_div_exact(v.z as int, ONE as int);
    lemma_trunc_div_exact(v.w as int, ONE as int);
    assert(ONE * v.x == v.x * ONE) by (nonlinear_arith);
    assert(ONE * v.y == v.y * ONE) by (nonlinear_arith);
    assert(ONE * v.z == v.z * ONE) by (nonlinear_arith);
    assert(ONE * v.w == v.w * ONE) by (nonlinear_arith);
}

/// The same for 3-vectors.
pub proof fn lemma_dot3_unit(v: Vec3)
    ensures
        dot3(Vec3 { x: ONE, y: 0, z: 0 }, v) == v.x,
        dot3(Vec3 { x: 0, y: ONE, z: 0 }, v) == v.y,
        dot3(Vec3 { x: 0, y: 0, z: ONE }, v) == v.z,
{
    lemma_trunc_div_exact(v.x as int, ONE as int);
    lemma_trunc_div_exact(v.y as int, ONE as int);
    lemma_trunc_div_exact(v.z as int, ONE as int);
    assert(ONE * v.x == v.x * ONE) by (nonlinear_arith);
    assert(ONE * v.y == v.y * ONE) by (nonlinear_arith);
    assert(ONE * v.z == v.z * ONE) by (nonlinear_arith);
}

/// The identity matrix changes neither a vector nor a matrix.
pub proof fn lemma_identity_is_neutral(v: Vec4, m: Mat4)
    ensures
        transformed(identity(), v) == v,
        matrix_product(identity(), m) == m,
        matrix_product(m, identity()) == m,
        rotated(identity(), Vec3 { x: v.x, y: v.y, z: v.z }) == (Vec3 { x: v.x, y: v.y, z: v.z }),
{
    lemma_dot4_unit(v);
    lemma_dot3_unit(Vec3 { x: v.x, y: v.y, z: v.z });
    let t = transposed(m);
    lemma_dot4_unit(t.r0);
    lemma_dot4_unit(t.r1);
    lemma_dot4_unit(t.r2);
    lemma_dot4_unit(t.r3);
    lemma_dot4_unit(m.r0);
    lemma_dot4_unit(m.r1);
    lemma_dot4_unit(m.r2);
    lemma_dot4_unit(m.r3);
}

/// No component of a vector is longer than the vector.
pub proof fn lemma_component_within_norm(v: Vec3)
    ensures
        magnitude(v.x as int) * ONE <= fine_norm(v),
        magnitude(v.y as int) * ONE <= fine_norm(v),
        magnitude(v.z as int) * ONE <= fine_norm(v),
        0 <= norm_squared(v) <= 3 * 0x4000_0000_0000_0000,
        norm_squared(v) == v.x * v.x + v.y * v.y + v.z * v.z,
{
    let x: int = magnitude(v.x as int);
    let y: int = magnitude(v.y as int);
    let z: int = magnitude(v.z as int);
    assert(x * x == v.x * v.x && y * y == v.y * v.y && z * z == v.z * v.z) by (nonlinear_arith)
        requires
            x == magnitude(v.x as int),
            y == magnitude(v.y as int),
            z == magnitude(v.z as int),
    ;
    assert(x * x >= 0 && y * y >= 0 && z * z >= 0) by (nonlinear_arith);
    lemma_product_bound(v.x as int, v.x as int, 0x8000_0000, 0x8000_0000);
    lemma_product_bound(v.y as int, v.y as int, 0x8000_0000, 0x8000_0000);
    lemma_product_bound(v.z as int, v.z as int, 0x8000_0000, 0x8000_0000);
    let wide: nat = norm_squared(v) * 0x1_0000_0000;
    assert((x * ONE) * (x * ONE) == (x * x) * 0x1_0000_0000) by (nonlinear_arith);
    assert((y * ONE) * (y * ONE) == (y * y) * 0x1_0000_0000) by (nonlinear_arith);
    assert((z * ONE) * (z * ONE) == (z * z) * 0x1_0000_0000) by (nonlinear_arith);
    lemma_floor_sqrt_is_greatest(x * ONE, wide);
    lemma_floor_sqrt_is_greatest(y * ONE, wide);
    lemma_floor_sqrt_is_greatest(z * ONE, wide);
}

impl Vec2 {
    pub fn new(x: Fixed, y: Fixed) -> (v: Vec2)
        ensures
            v == (Vec2 { x, y }),
    {
        Vec2 { x, y }
    }
}

impl Vec3 {
    pub fn new(x: Fixed, y: Fixed, z: Fixed) -> (v: Vec3)
        ensures
            v == (Vec3 { x, y, z }),
    {
        Vec3 { x, y, z }
    }

    /// The sum of this vector and `other`.
    pub fn plus(&self, other: &Vec3) -> (r: Vec3)
        ensures
            r == vector_sum(*self, *other),
    {
        Vec3 {
            x: saturate((self.x as i128) + (other.x as i128)),
            y: saturate((self.y as i128) + (other.y as i128)),
            z: saturate((self.z as i128) + (other.z as i128)),
        }
    }

    /// The difference of this vector and `other`.
    pub fn minus(&self, other: &Vec3) -> (r: Vec3)
        ensures
            r == vector_difference(*self, *other),
    {
        Vec3 {
            x: saturate((self.x as i128) - (other.x as i128)),
            y: saturate((self.y as i128) - (other.y as i128)),
            z: saturate((self.z as i128) - (other.z as i128)),
        }
    }

    /// The cross product of this vector and `other`.
    pub fn cross(&self, other: &Vec3) -> (r: Vec3)
        ensures
            r == cross_product(*self, *other),
    {
        let x: i128 = (wide_product(self.y, other.z) as i128) - (wide_product(self.z, other.y) as i128);
        let y: i128 = (wide_product(self.z, other.x) as i128) - (wide_product(self.x, other.z) as i128);
        let z: i128 = (wide_product(self.x, other.y) as i128) - (wide_product(self.y, other.x) as i128);
        Vec3 {
            x: saturate(divide_wide(x, 65536)),
            y: saturate(divide_wide(y, 65536)),
            z: saturate(divide_wide(z, 65536)),
        }
    }

    /// The horizontal unit vector at a right angle to this one.
    pub fn sideways(&self) -> (r: Vec3)
        ensures
            r == sideways_of(*self),
    {
        Vec3 { x: saturate(-(self.z as i128)), y: 0, z: self.x }.normalize()
    }

    /// The unit vector at a right angle to this one and to its sideways
    /// vector.
    pub fn upward(&self) -> (r: Vec3)
        ensures
            r == upward_of(*self),
    {
        self.cross(&self.sideways()).normalize()
    }

    /// Every component multiplied by the fixed-point factor `k`.
    pub fn scale(&self, k: Fixed) -> (r: Vec3)
        ensures
            r == scaled_vector(*self, k as int),
    {
        Vec3 { x: fx_mul(self.x, k), y: fx_mul(self.y, k), z: fx_mul(self.z, k) }
    }

    /// The dot product with `other`.
    pub fn dot(&self, other: &Vec3) -> (r: Fixed)
        ensures
            r == dot3(*self, *other),
    {
        let a: i128 = wide_product(self.x, other.x) as i128;
        let b: i128 = wide_product(self.y, other.y) as i128;
        let c: i128 = wide_product(self.z, other.z) as i128;
        saturate(divide_wide(a + b + c, 65536))
    }

    /// The length of the vector, rounded down.
    pub fn length(&self) -> (r: u64)
        ensures
            r == norm(*self),
    {
        let a: u64 = wide_product(self.x, self.x) as u64;
        let b: u64 = wide_product(self.y, self.y) as u64;
        let c: u64 = wide_product(self.z, self.z) as u64;
        proof {
            assert(self.x * self.x >= 0 && self.y * self.y >= 0 && self.z * self.z >= 0)
                by (nonlinear_arith);
        }
        isqrt(a + b + c)
    }

    /// The length of the vector, rounded down and saturated.
    pub fn magnitude(&self) -> (r: Fixed)
        ensures
            r == saturated(norm(*self) as int),
    {
        saturate(self.length() as i128)
    }

    /// The vector scaled to unit length; the zero vector stays zero.
    pub fn normalize(&self) -> (r: Vec3)
        ensures
            r == normalized(*self),
            -ONE <= r.x <= ONE,
            -ONE <= r.y <= ONE,
            -ONE <= r.z <= ONE,
    {
        let a: u128 = wide_product(self.x, self.x) as u128;
        let b: u128 = wide_product(self.y, self.y) as u128;
        let c: u128 = wide_product(self.z, self.z) as u128;
        proof {
            lemma_component_within_norm(*self);
            assert(self.x * self.x >= 0 && self.y * self.y >= 0 && self.z * self.z >= 0)
                by (nonlinear_arith);
        }
        let len: u64 = isqrt_wide((a + b + c) * 0x1_0000_0000);
        if len == 0 {
            Vec3 { x: 0, y: 0, z: 0 }
        } else {
            Vec3 {
                x: unit_component(self.x, len),
                y: unit_component(self.y, len),
                z: unit_component(self.z, len),
            }
        }
    }
}

/// One component of a vector divided by the vector's length, which is
/// given in units of 2^-32.
fn unit_component(c: Fixed, len: u64) -> (r: Fixed)
    requires
        0 < len,
        magnitude(c as int) * ONE <= len,
    ensures
        r == trunc_div(c * 0x1_0000_0000, len as int),
        -ONE <= r <= ONE,
{
    let n: i128 = (c as i128) * 0x1_0000_0000;
    let q: i128 = divide_wide(n, len as i128);
    proof {
        let l: int = len as int;
        lemma_trunc_div_exact(ONE as int, l);
        lemma_trunc_div_exact(-ONE as int, l);
        assert(-(ONE * l) <= c * 0x1_0000_0000 <= ONE * l) by (nonlinear_arith)
            requires
                -l <= c * ONE <= l,
        ;
        assert((-ONE) * l == -(ONE * l)) by (nonlinear_arith);
        crate::fixed::lemma_trunc_div_monotonic((-ONE) * l, c * 0x1_0000_0000, l);
        crate::fixed::lemma_trunc_div_monotonic(c * 0x1_0000_0000, ONE * l, l);
    }
    q as i32
}

impl Vec4 {
    pub fn new(x: Fixed, y: Fixed, z: Fixed, w: Fixed) -> (v: Vec4)
        ensures
            v == (Vec4 { x, y, z, w }),
    {
        Vec4 { x, y, z, w }
    }

    /// The dot product with `other`.
    pub fn dot(&self, other: &Vec4) -> (r: Fixed)
        ensures
            r == dot4(*self, *other),
    {
        let a: i128 = wide_product(self.x, other.x) as i128;
        let b: i128 = wide_product(self.y, other.y) as i128;
        let c: i128 = wide_product(self.z, other.z) as i128;
        let d: i128 = wide_product(self.w, other.w) as i128;
        saturate(divide_wide(a + b + c + d, 65536))
    }
}

impl Mat4 {
    /// The identity matrix.
    pub fn identity() -> (m: Mat4)
        ensures
            m == identity(),
    {
        Mat4 {
            r0: Vec4 { x: 65536, y: 0, z: 0, w: 0 },
            r1: Vec4 { x: 0, y: 65536, z: 0, w: 0 },
            r2: Vec4 { x: 0, y: 0, z: 65536, w: 0 },
            r3: Vec4 { x: 0, y: 0, z: 0, w: 65536 },
        }
    }

    /// The matrix with rows and columns exchanged.
    pub fn transpose(&self) -> (m: Mat4)
        ensures
            m == transposed(*self),
    {
        Mat4 {
            r0: Vec4 { x: self.r0.x, y: self.r1.x, z: self.r2.x, w: self.r3.x },
            r1: Vec4 { x: self.r0.y, y: self.r1.y, z: self.r2.y, w: self.r3.y },
            r2: Vec4 { x: self.r0.z, y: self.r1.z, z: self.r2.z, w: self.r3.z },
            r3: Vec4 { x: self.r0.w, y: self.r1.w, z: self.r2.w, w: self.r3.w },
        }
    }

    /// The product of this matrix and the column vector `v`.
    pub fn transform(&self, v: &Vec4) -> (r: Vec4)
        ensures
            r == transformed(*self, *v),
    {
        Vec4 { x: self.r0.dot(v), y: self.r1.dot(v), z: self.r2.dot(v), w: self.r3.dot(v) }
    }

    /// The matrix product of this matrix and `other`.
    pub fn times(&self, other: &Mat4) -> (m: Mat4)
        ensures
            m == matrix_product(*self, *other),
    {
        let columns: Mat4 = other.transpose();
        Mat4 {
            r0: row_by_columns(&self.r0, &columns),
            r1: row_by_columns(&self.r1, &columns),
            r2: row_by_columns(&self.r2, &columns),
            r3: row_by_columns(&self.r3, &columns),
        }
    }

    /// The product of the upper-left 3x3 block of this matrix and `v`.
    pub fn rotate(&self, v: &Vec3) -> (r: Vec3)
        ensures
            r == rotated(*self, *v),
    {
        let a: Vec3 = Vec3 { x: self.r0.x, y: self.r0.y, z: self.r0.z };
        let b: Vec3 = Vec3 { x: self.r1.x, y: self.r1.y, z: self.r1.z };
        let c: Vec3 = Vec3 { x: self.r2.x, y: self.r2.y, z: self.r2.z };
        Vec3 { x: a.dot(v), y: b.dot(v), z: c.dot(v) }
    }
}

fn row_by_columns(row: &Vec4, columns: &Mat4) -> (r: Vec4)
    ensures
        r == row_times(*row, *columns),
{
    Vec4 {
        x: row.dot(&columns.r0),
        y: row.dot(&columns.r1),
        z: row.dot(&columns.r2),
        w: row.dot(&columns.r3),
    }
}

} // verus!
