//! 16.16 fixed-point numbers held in an `i32`.
//!
//! A raw value `v` stands for the rational `v / 65536`. Products and
//! quotients are computed exactly in a wider type, rounded toward zero and
//! then saturated to the `i32` range.

use vstd::prelude::*;

verus! {

/// A 16.16 fixed-point number: the raw value counts units of 1/65536.
pub type Fixed = i32;

/// The raw value of 1.0.
pub const ONE: i32 = 65536;

/// The raw value of 0.5.
pub const HALF: i32 = 32768;

/// The raw value of pi, rounded to the nearest unit.
pub const PI: i32 = 205887;

/// The raw value of twice pi, rounded to the nearest unit.
pub const TWO_PI: i32 = 411775;

/// Quotient of `a` by a positive `b`, rounded toward zero.
pub open spec fn trunc_div(a: int, b: int) -> int
    recommends
        b > 0,
{
    if a >= 0 {
        a / b
    } else {
        -((-a) / b)
    }
}

/// `v` limited to the interval from `lo` to `hi`.
pub open spec fn clamp(v: int, lo: int, hi: int) -> int
    recommends
        lo <= hi,
{
    if v < lo {
        lo
    } else if v > hi {
        hi
    } else {
        v
    }
}

/// `v` limited to the range of an `i32`.
pub open spec fn saturated(v: int) -> int {
    clamp(v, i32::MIN as int, i32::MAX as int)
}

/// Absolute value of an integer.
pub open spec fn magnitude(v: int) -> int {
    if v < 0 {
        -v
    } else {
        v
    }
}

/// Raw value of the fixed-point product of `a` and `b`.
pub open spec fn product(a: int, b: int) -> int {
    saturated(trunc_div(a * b, ONE as int))
}

/// Raw value of the fixed-point quotient of `a` by a non-zero `b`.
pub open spec fn quotient(a: int, b: int) -> int
    recommends
        b != 0,
{
    if b > 0 {
        saturated(trunc_div(a * ONE, b))
    } else {
        saturated(trunc_div(-a * ONE, -b))
    }
}

/// The product of two integers of magnitude at most `m` and `n` has
/// magnitude at most `m * n`.
pub proof fn lemma_product_bound(a: int, b: int, m: int, n: int)
    by (nonlinear_arith)
    requires
        -m <= a <= m,
        -n <= b <= n,
    ensures
        -(m * n) <= a * b <= m * n,
{
}

/// Rounding toward zero keeps a quotient between zero and the exact value.
pub proof fn lemma_trunc_div_bounds(a: int, b: int)
    requires
        b > 0,
    ensures
        magnitude(trunc_div(a, b)) <= magnitude(a),
        a >= 0 ==> 0 <= trunc_div(a, b) && trunc_div(a, b) * b <= a < (trunc_div(a, b) + 1) * b,
        a <= 0 ==> trunc_div(a, b) <= 0 && (trunc_div(a, b) - 1) * b < a <= trunc_div(a, b) * b,
{
    let m: int = magnitude(a);
    vstd::arithmetic::div_mod::lemma_fundamental_div_mod(m, b);
    vstd::arithmetic::div_mod::lemma_div_pos_is_pos(m, b);
    vstd::arithmetic::div_mod::lemma_mod_bound(m, b);
    let q: int = m / b;
    assert(q * b == b * q) by (nonlinear_arith);
    assert((q + 1) * b == q * b + b) by (nonlinear_arith);
    assert(q <= m) by (nonlinear_arith)
        requires
            q >= 0,
            b >= 1,
            q * b <= m,
    ;
    if a <= 0 {
        assert((-q) * b == -(q * b)) by (nonlinear_arith);
        assert((-q - 1) * b == -(q * b) - b) by (nonlinear_arith);
    }
}

/// A multiple of the divisor divides exactly.
pub proof fn lemma_trunc_div_exact(q: int, b: int)
    requires
        b > 0,
    ensures
        trunc_div(q * b, b) == q,
{
    if q >= 0 {
        assert(q * b >= 0) by (nonlinear_arith)
            requires
                q >= 0,
                b > 0,
        ;
        vstd::arithmetic::div_mod::lemma_div_multiples_vanish(q, b);
        assert(q * b == b * q) by (nonlinear_arith);
    } else {
        assert(q * b < 0) by (nonlinear_arith)
            requires
                q < 0,
                b > 0,
        ;
        assert(-(q * b) == b * (-q)) by (nonlinear_arith);
        vstd::arithmetic::div_mod::lemma_div_multiples_vanish(-q, b);
    }
}

/// Rounding toward zero is monotonic in the dividend.
pub proof fn lemma_trunc_div_monotonic(a: int, c: int, b: int)
    requires
        b > 0,
        a <= c,
    ensures
        trunc_div(a, b) <= trunc_div(c, b),
{
    if a >= 0 {
        vstd::arithmetic::div_mod::lemma_div_is_ordered(a, c, b);
    } else if c < 0 {
        vstd::arithmetic::div_mod::lemma_div_is_ordered(-c, -a, b);
    } else {
        vstd::arithmetic::div_mod::lemma_div_pos_is_pos(-a, b);
        vstd::arithmetic::div_mod::lemma_div_pos_is_pos(c, b);
    }
}

/// Limits a wide integer to the `i32` range.
pub fn saturate(v: i128) -> (r: i32)
    ensures
        r == saturated(v as int),
{
    if v < -2147483648 {
        -2147483648
    } else if v > 2147483647 {
        2147483647
    } else {
        v as i32
    }
}

/// Quotient of `a` by a positive `b`, rounded toward zero.
pub fn divide_wide(a: i128, b: i128) -> (r: i128)
    requires
        b > 0,
    ensures
        r == trunc_div(a as int, b as int),
        magnitude(r as int) <= magnitude(a as int),
{
    proof {
        lemma_trunc_div_bounds(a as int, b as int);
    }
    a / b
}

/// Exact product of two fixed-point raw values, in units of 2^-32.
pub fn wide_product(a: i32, b: i32) -> (r: i64)
    ensures
        r == a * b,
        -0x4000_0000_0000_0000 <= r <= 0x4000_0000_0000_0000,
{
    proof {
        lemma_product_bound(a as int, b as int, 0x8000_0000, 0x8000_0000);
    }
    let x: i64 = a as i64;
    let y: i64 = b as i64;
    x * y
}

/// Fixed-point product, rounded toward zero and saturated.
pub fn fx_mul(a: Fixed, b: Fixed) -> (r: Fixed)
    ensures
        r == product(a as int, b as int),
{
    let wide: i64 = wide_product(a, b);
    saturate(divide_wide(wide as i128, 65536))
}

/// Fixed-point quotient, rounded toward zero and saturated.
pub fn fx_div(a: Fixed, b: Fixed) -> (r: Fixed)
    requires
        b != 0,
    ensures
        r == quotient(a as int, b as int),
{
    let num: i128 = (a as i128) * 65536;
    if b > 0 {
        saturate(divide_wide(num, b as i128))
    } else {
        saturate(divide_wide(-num, -(b as i128)))
    }
}

/// The fixed-point number that stands for the whole number `n`, saturated.
pub fn from_int(n: i32) -> (r: Fixed)
    ensures
        r == saturated(n * ONE),
{
    saturate((n as i128) * 65536)
}

/// `r` is the square root of `n` rounded down.
pub open spec fn is_floor_sqrt(r: int, n: int) -> bool {
    0 <= r && r * r <= n < (r + 1) * (r + 1)
}

/// The square root of `n`, rounded down.
pub open spec fn floor_sqrt(n: nat) -> nat
    decreases n,
{
    if n == 0 {
        0
    } else {
        let r = floor_sqrt((n - 1) as nat);
        if (r + 1) * (r + 1) <= n {
            r + 1
        } else {
            r
        }
    }
}

/// `floor_sqrt` is the rounded-down square root.
pub proof fn lemma_floor_sqrt(n: nat)
    ensures
        is_floor_sqrt(floor_sqrt(n) as int, n as int),
    decreases n,
{
    if n > 0 {
        lemma_floor_sqrt((n - 1) as nat);
        let r: int = floor_sqrt((n - 1) as nat) as int;
        assert((r + 2) * (r + 2) > (r + 1) * (r + 1)) by (nonlinear_arith)
            requires
                r >= 0,
        ;
    }
}

/// Only one number is the rounded-down square root of `n`.
pub proof fn lemma_floor_sqrt_unique(r: int, s: int, n: int)
    requires
        is_floor_sqrt(r, n),
        is_floor_sqrt(s, n),
    ensures
        r == s,
{
    if r < s {
        assert((r + 1) * (r + 1) <= s * s) by (nonlinear_arith)
            requires
                0 <= r + 1 <= s,
        ;
    } else if s < r {
        assert((s + 1) * (s + 1) <= r * r) by (nonlinear_arith)
            requires
                0 <= s + 1 <= r,
        ;
    }
}

/// A number whose square is at most `n` is at most the square root of `n`
/// rounded down.
pub proof fn lemma_floor_sqrt_is_greatest(r: int, n: nat)
    requires
        0 <= r,
        r * r <= n,
    ensures
        r <= floor_sqrt(n),
{
    lemma_floor_sqrt(n);
    let f: int = floor_sqrt(n) as int;
    if r > f {
        assert((f + 1) * (f + 1) <= r * r) by (nonlinear_arith)
            requires
                0 <= f + 1 <= r,
        ;
    }
}

/// The square root of a wide number, rounded down.
pub fn isqrt_wide(n: u128) -> (r: u64)
    ensures
        r == floor_sqrt(n as nat),
{
    let mut lo: u128 = 0;
    let mut hi: u128 = 0x1_0000_0000_0000_0000;
    assert(n < hi * hi) by (nonlinear_arith)
        requires
            hi == 0x1_0000_0000_0000_0000,
            n <= u128::MAX,
    ;
    while hi - lo > 1
        invariant
            lo < hi <= 0x1_0000_0000_0000_0000,
            lo * lo <= n < hi * hi,
        decreases hi - lo,
    {
        let mid: u128 = lo + (hi - lo) / 2;
        assert(mid * mid < 0x1_0000_0000_0000_0000 * 0x1_0000_0000_0000_0000) by (nonlinear_arith)
            requires
                0 <= mid < 0x1_0000_0000_0000_0000,
        ;
        if mid * mid <= n {
            lo = mid;
        } else {
            hi = mid;
        }
    }
    proof {
        lemma_floor_sqrt(n as nat);
        lemma_floor_sqrt_unique(lo as int, floor_sqrt(n as nat) as int, n as int);
    }
    lo as u64
}

/// The square root of `n`, rounded down.
pub fn isqrt(n: u64) -> (r: u64)
    ensures
        r == floor_sqrt(n as nat),
        r <= 0xffff_ffff,
{
    let mut lo: u64 = 0;
    let mut hi: u64 = 0x1_0000_0000;
    while hi - lo > 1
        invariant
            lo < hi <= 0x1_0000_0000,
            lo * lo <= n < hi * hi,
        decreases hi - lo,
    {
        let mid: u64 = lo + (hi - lo) / 2;
        assert(mid * mid < 0x1_0000_0000 * 0x1_0000_0000) by (nonlinear_arith)
            requires
                0 <= mid < 0x1_0000_0000,
        ;
        if mid * mid <= n {
            lo = mid;
        } else {
            hi = mid;
        }
    }
    proof {
        lemma_floor_sqrt(n as nat);
        lemma_floor_sqrt_unique(lo as int, floor_sqrt(n as nat) as int, n as int);
    }
    lo
}

} // verus!
