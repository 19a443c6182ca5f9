//! Edge functions, triangle coverage and barycentric interpolation, as exact
//! integer arithmetic on fixed-point screen coordinates.

use vstd::prelude::*;
use crate::fixed::{
    lemma_trunc_div_exact, lemma_trunc_div_monotonic, magnitude, trunc_div, HALF, ONE,
};
use crate::vertex::Vertex2D;

verus! {

/// The edge function of the line from `a` to `b` at the point `c`:
/// the cross product `(c - a) x (b - a)`. Coordinates in units of 2^-16 give
/// a value in units of 2^-32.
pub open spec fn edge(ax: int, ay: int, bx: int, by: int, cx: int, cy: int) -> int {
    (cx - ax) * (by - ay) - (cy - ay) * (bx - ax)
}

/// The edge function of two vertices at a third.
pub open spec fn edge_of(a: Vertex2D, b: Vertex2D, c: Vertex2D) -> int {
    edge(a.x as int, a.y as int, b.x as int, b.y as int, c.x as int, c.y as int)
}

/// The raw coordinate of the center of pixel column or row `i`.
pub open spec fn center(i: int) -> int {
    i * ONE + HALF
}

/// A signed area, in units of 2^-32, is too small to fill: its magnitude is
/// under 0.0001 square pixels.
pub open spec fn degenerate(area: int) -> bool {
    magnitude(area) * 10000 < 0x1_0000_0000
}

/// The three edge-function values of a triangle at a point, one per vertex:
/// the first belongs to `v1` and is taken against the edge from `v2` to `v3`,
/// and so on around the triangle.
pub struct Weights {
    pub w1: int,
    pub w2: int,
    pub w3: int,
}

/// The edge-function values of the triangle at the point `(px, py)`.
pub open spec fn weights_at(v1: Vertex2D, v2: Vertex2D, v3: Vertex2D, px: int, py: int) -> Weights {
    Weights {
        w1: edge(v2.x as int, v2.y as int, v3.x as int, v3.y as int, px, py),
        w2: edge(v3.x as int, v3.y as int, v1.x as int, v1.y as int, px, py),
        w3: edge(v1.x as int, v1.y as int, v2.x as int, v2.y as int, px, py),
    }
}

/// Edge values `w` mark a point inside or on a triangle of signed area
/// `area`: none of them has the sign opposite to the area's.
pub open spec fn inside(area: int, w: Weights) -> bool {
    if area > 0 {
        w.w1 >= 0 && w.w2 >= 0 && w.w3 >= 0
    } else {
        w.w1 <= 0 && w.w2 <= 0 && w.w3 <= 0
    }
}

/// Edge values `w` mark a point strictly inside a triangle of signed area
/// `area`: each of them has the area's sign.
pub open spec fn strictly_inside(area: int, w: Weights) -> bool {
    if area > 0 {
        w.w1 > 0 && w.w2 > 0 && w.w3 > 0
    } else {
        w.w1 < 0 && w.w2 < 0 && w.w3 < 0
    }
}

/// Edge values `w` mark a point strictly outside a triangle of signed area
/// `area`: one of them has the sign opposite to the area's.
pub open spec fn strictly_outside(area: int, w: Weights) -> bool {
    if area > 0 {
        w.w1 < 0 || w.w2 < 0 || w.w3 < 0
    } else {
        w.w1 > 0 || w.w2 > 0 || w.w3 > 0
    }
}

/// The triangle covers the pixel `(x, y)`: it is not degenerate and the
/// pixel's center is inside it or on its border, whichever way it winds.
pub open spec fn covers(v1: Vertex2D, v2: Vertex2D, v3: Vertex2D, x: int, y: int) -> bool {
    let area = edge_of(v1, v2, v3);
    !degenerate(area) && inside(area, weights_at(v1, v2, v3, center(x), center(y)))
}

/// The weighted mean of three values with the edge values as weights,
/// rounded toward zero: the barycentric interpolation of `a1`, `a2`, `a3`.
pub open spec fn interpolated(a1: int, a2: int, a3: int, w: Weights, area: int) -> int
    recommends
        area != 0,
{
    if area > 0 {
        trunc_div(a1 * w.w1 + a2 * w.w2 + a3 * w.w3, area)
    } else {
        trunc_div(-(a1 * w.w1 + a2 * w.w2 + a3 * w.w3), -area)
    }
}

/// The least of three numbers.
pub open spec fn min3(a: int, b: int, c: int) -> int {
    if a <= b && a <= c {
        a
    } else if b <= c {
        b
    } else {
        c
    }
}

/// The greatest of three numbers.
pub open spec fn max3(a: int, b: int, c: int) -> int {
    if a >= b && a >= c {
        a
    } else if b >= c {
        b
    } else {
        c
    }
}

/// The edge function of the line from `(a2, b2)` to `(a3, b3)` at the
/// origin.
proof fn lemma_edge_at_origin(a2: int, b2: int, a3: int, b3: int)
    by (nonlinear_arith)
    ensures
        (0 - a2) * (b3 - b2) - (0 - b2) * (a3 - a2) == a3 * b2 - a2 * b3,
{
}

/// The signed area of a triangle is the sum of the edge functions of its
/// three sides at the origin.
proof fn lemma_area_from_origin(a1: int, b1: int, a2: int, b2: int, a3: int, b3: int)
    ensures
        (a3 - a1) * (b2 - b1) - (b3 - b1) * (a2 - a1) == (a3 * b2 - a2 * b3) + (a1 * b3 - a3 * b1) + (
        a2 * b1 - a1 * b2),
{
    assert((a3 - a1) * (b2 - b1) == a3 * b2 - a3 * b1 - a1 * b2 + a1 * b1) by (nonlinear_arith);
    assert((b3 - b1) * (a2 - a1) == a2 * b3 - a1 * b3 - a2 * b1 + a1 * b1) by (nonlinear_arith);
}

/// Moving the triangle and the point by the same amount changes no edge
/// value.
proof fn lemma_edge_shift(ax: int, ay: int, bx: int, by: int, cx: int, cy: int, dx: int, dy: int)
    ensures
        edge(ax - dx, ay - dy, bx - dx, by - dy, cx - dx, cy - dy) == edge(ax, ay, bx, by, cx, cy),
{
    assert((cx - dx) - (ax - dx) == cx - ax);
    assert((by - dy) - (ay - dy) == by - ay);
    assert((cy - dy) - (ay - dy) == cy - ay);
    assert((bx - dx) - (ax - dx) == bx - ax);
}

/// The edge values of a point, each multiplied by the offset of its vertex
/// from the point, cancel.
proof fn lemma_offsets_cancel(a1: int, b1: int, a2: int, b2: int, a3: int, b3: int)
    ensures
        a1 * (a3 * b2 - a2 * b3) + a2 * (a1 * b3 - a3 * b1) + a3 * (a2 * b1 - a1 * b2) == 0,
        b1 * (a3 * b2 - a2 * b3) + b2 * (a1 * b3 - a3 * b1) + b3 * (a2 * b1 - a1 * b2) == 0,
{
    lemma_two_terms(a1, a3 * b2, a2 * b3);
    lemma_two_terms(a2, a1 * b3, a3 * b1);
    lemma_two_terms(a3, a2 * b1, a1 * b2);
    lemma_rotate(a1, a3, b2);
    lemma_rotate(a1, a2, b3);
    lemma_rotate(a2, a3, b1);
    lemma_two_terms(b1, a3 * b2, a2 * b3);
    lemma_two_terms(b2, a1 * b3, a3 * b1);
    lemma_two_terms(b3, a2 * b1, a1 * b2);
    lemma_pivot(b1, a3, b2);
    lemma_pivot(b1, a2, b3);
    lemma_pivot(b2, a1, b3);
}

proof fn lemma_two_terms(k: int, p: int, q: int)
    by (nonlinear_arith)
    ensures
        k * (p - q) == k * p - k * q,
{
}

proof fn lemma_rotate(a: int, b: int, c: int)
    by (nonlinear_arith)
    ensures
        a * (b * c) == b * (a * c),
{
}

proof fn lemma_pivot(a: int, b: int, c: int)
    by (nonlinear_arith)
    ensures
        a * (b * c) == c * (b * a),
{
}

proof fn lemma_sign_of_product(a: int, u: int)
    by (nonlinear_arith)
    ensures
        a > 0 && u >= 0 ==> a * u >= 0,
        a > 0 && u > 0 ==> a * u > 0,
        a < 0 && u >= 0 ==> a * u <= 0,
        a < 0 && u > 0 ==> a * u < 0,
        a > 0 && u <= 0 ==> a * u <= 0,
        a > 0 && u < 0 ==> a * u < 0,
        a < 0 && u <= 0 ==> a * u >= 0,
        a < 0 && u < 0 ==> a * u > 0,
{
}

/// Exchanging the two ends of an edge changes the sign of its edge
/// function.
proof fn lemma_edge_reversed(ax: int, ay: int, bx: int, by: int, cx: int, cy: int)
    ensures
        edge(bx, by, ax, ay, cx, cy) == -edge(ax, ay, bx, by, cx, cy),
{
    lemma_edge_shift(ax, ay, bx, by, cx, cy, cx, cy);
    lemma_edge_shift(bx, by, ax, ay, cx, cy, cx, cy);
    lemma_edge_at_origin(ax - cx, ay - cy, bx - cx, by - cy);
    lemma_edge_at_origin(bx - cx, by - cy, ax - cx, ay - cy);
}

/// A triangle covers the same pixels whichever way its vertices are
/// ordered.
pub proof fn lemma_winding_does_not_matter(v1: Vertex2D, v2: Vertex2D, v3: Vertex2D, x: int, y: int)
    ensures
        covers(v1, v3, v2, x, y) == covers(v1, v2, v3, x, y),
        edge_of(v1, v3, v2) == -edge_of(v1, v2, v3),
{
    let px: int = center(x);
    let py: int = center(y);
    lemma_edge_reversed(v2.x as int, v2.y as int, v3.x as int, v3.y as int, px, py);
    lemma_edge_reversed(v1.x as int, v1.y as int, v2.x as int, v2.y as int, px, py);
    lemma_edge_reversed(v3.x as int, v3.y as int, v1.x as int, v1.y as int, px, py);
    lemma_weights_sum(v1, v2, v3, px, py);
    lemma_weights_sum(v1, v3, v2, px, py);
}

/// The three edge values of any point add up to the signed area, so the
/// barycentric weights, which are the edge values divided by the area, add
/// up to exactly one.
pub proof fn lemma_weights_sum(v1: Vertex2D, v2: Vertex2D, v3: Vertex2D, px: int, py: int)
    ensures
        ({
            let w = weights_at(v1, v2, v3, px, py);
            w.w1 + w.w2 + w.w3 == edge_of(v1, v2, v3)
        }),
{
    let a1: int = v1.x - px;
    let b1: int = v1.y - py;
    let a2: int = v2.x - px;
    let b2: int = v2.y - py;
    let a3: int = v3.x - px;
    let b3: int = v3.y - py;
    lemma_edge_shift(v2.x as int, v2.y as int, v3.x as int, v3.y as int, px, py, px, py);
    lemma_edge_shift(v3.x as int, v3.y as int, v1.x as int, v1.y as int, px, py, px, py);
    lemma_edge_shift(v1.x as int, v1.y as int, v2.x as int, v2.y as int, px, py, px, py);
    lemma_edge_shift(
        v1.x as int,
        v1.y as int,
        v2.x as int,
        v2.y as int,
        v3.x as int,
        v3.y as int,
        px,
        py,
    );
    lemma_edge_at_origin(a2, b2, a3, b3);
    lemma_edge_at_origin(a3, b3, a1, b1);
    lemma_edge_at_origin(a1, b1, a2, b2);
    lemma_area_from_origin(a1, b1, a2, b2, a3, b3);
}

/// The edge values of a point in terms of the offsets of the vertices from
/// it, and the fact that those offsets, weighted by the edge values, cancel.
proof fn lemma_weights_about_point(v1: Vertex2D, v2: Vertex2D, v3: Vertex2D, px: int, py: int)
    ensures
        ({
            let w = weights_at(v1, v2, v3, px, py);
            &&& (v1.x - px) * w.w1 + (v2.x - px) * w.w2 + (v3.x - px) * w.w3 == 0
            &&& (v1.y - py) * w.w1 + (v2.y - py) * w.w2 + (v3.y - py) * w.w3 == 0
        }),
{
    let a1: int = v1.x - px;
    let b1: int = v1.y - py;
    let a2: int = v2.x - px;
    let b2: int = v2.y - py;
    let a3: int = v3.x - px;
    let b3: int = v3.y - py;
    lemma_edge_shift(v2.x as int, v2.y as int, v3.x as int, v3.y as int, px, py, px, py);
    lemma_edge_shift(v3.x as int, v3.y as int, v1.x as int, v1.y as int, px, py, px, py);
    lemma_edge_shift(v1.x as int, v1.y as int, v2.x as int, v2.y as int, px, py, px, py);
    lemma_edge_at_origin(a2, b2, a3, b3);
    lemma_edge_at_origin(a3, b3, a1, b1);
    lemma_edge_at_origin(a1, b1, a2, b2);
    lemma_offsets_cancel(a1, b1, a2, b2, a3, b3);
}

/// Three offsets of one strict sign, weighted by three values of one weak
/// sign, cancel only if the three values are zero.
proof fn lemma_no_cancelling(a1: int, a2: int, a3: int, w1: int, w2: int, w3: int)
    requires
        (a1 > 0 && a2 > 0 && a3 > 0) || (a1 < 0 && a2 < 0 && a3 < 0),
        (w1 >= 0 && w2 >= 0 && w3 >= 0) || (w1 <= 0 && w2 <= 0 && w3 <= 0),
        a1 * w1 + a2 * w2 + a3 * w3 == 0,
    ensures
        w1 == 0 && w2 == 0 && w3 == 0,
{
    lemma_sign_of_product(a1, w1);
    lemma_sign_of_product(a2, w2);
    lemma_sign_of_product(a3, w3);
}

/// A mean of three values with non-negative weights that add up to a
/// positive total lies between the least and the greatest of the values.
pub proof fn lemma_mean_between(a1: int, a2: int, a3: int, w1: int, w2: int, w3: int, total: int)
    requires
        w1 >= 0,
        w2 >= 0,
        w3 >= 0,
        total == w1 + w2 + w3,
        total > 0,
    ensures
        min3(a1, a2, a3) * total <= a1 * w1 + a2 * w2 + a3 * w3 <= max3(a1, a2, a3) * total,
        min3(a1, a2, a3) <= trunc_div(a1 * w1 + a2 * w2 + a3 * w3, total) <= max3(a1, a2, a3),
{
    let lo: int = min3(a1, a2, a3);
    let hi: int = max3(a1, a2, a3);
    let s: int = a1 * w1 + a2 * w2 + a3 * w3;
    assert(lo * w1 <= a1 * w1 <= hi * w1) by (nonlinear_arith)
        requires
            lo <= a1 <= hi,
            w1 >= 0,
    ;
    assert(lo * w2 <= a2 * w2 <= hi * w2) by (nonlinear_arith)
        requires
            lo <= a2 <= hi,
            w2 >= 0,
    ;
    assert(lo * w3 <= a3 * w3 <= hi * w3) by (nonlinear_arith)
        requires
            lo <= a3 <= hi,
            w3 >= 0,
    ;
    assert(lo * total == lo * w1 + lo * w2 + lo * w3) by (nonlinear_arith)
        requires
            total == w1 + w2 + w3,
    ;
    assert(hi * total == hi * w1 + hi * w2 + hi * w3) by (nonlinear_arith)
        requires
            total == w1 + w2 + w3,
    ;
    lemma_trunc_div_exact(lo, total);
    lemma_trunc_div_exact(hi, total);
    lemma_trunc_div_monotonic(lo * total, s, total);
    lemma_trunc_div_monotonic(s, hi * total, total);
}

/// A triangle that is not degenerate covers every pixel whose center lies
/// strictly inside it by the sign test, and no pixel whose center lies
/// strictly outside.
pub proof fn lemma_covers_inside_only(v1: Vertex2D, v2: Vertex2D, v3: Vertex2D, x: int, y: int)
    requires
        !degenerate(edge_of(v1, v2, v3)),
    ensures
        strictly_inside(edge_of(v1, v2, v3), weights_at(v1, v2, v3, center(x), center(y))) ==> covers(
            v1,
            v2,
            v3,
            x,
            y,
        ),
        strictly_outside(edge_of(v1, v2, v3), weights_at(v1, v2, v3, center(x), center(y)))
            ==> !covers(v1, v2, v3, x, y),
{
}

/// The center of a covered pixel lies within the bounding box of the three
/// vertices.
pub proof fn lemma_covered_in_box(v1: Vertex2D, v2: Vertex2D, v3: Vertex2D, x: int, y: int)
    requires
        covers(v1, v2, v3, x, y),
    ensures
        min3(v1.x as int, v2.x as int, v3.x as int) <= center(x) <= max3(
            v1.x as int,
            v2.x as int,
            v3.x as int,
        ),
        min3(v1.y as int, v2.y as int, v3.y as int) <= center(y) <= max3(
            v1.y as int,
            v2.y as int,
            v3.y as int,
        ),
{
    let cx: int = center(x);
    let cy: int = center(y);
    let w = weights_at(v1, v2, v3, cx, cy);
    lemma_weights_sum(v1, v2, v3, cx, cy);
    lemma_weights_about_point(v1, v2, v3, cx, cy);
    if cx < min3(v1.x as int, v2.x as int, v3.x as int) || cx > max3(
        v1.x as int,
        v2.x as int,
        v3.x as int,
    ) {
        lemma_no_cancelling(v1.x - cx, v2.x - cx, v3.x - cx, w.w1, w.w2, w.w3);
    }
    if cy < min3(v1.y as int, v2.y as int, v3.y as int) || cy > max3(
        v1.y as int,
        v2.y as int,
        v3.y as int,
    ) {
        lemma_no_cancelling(v1.y - cy, v2.y - cy, v3.y - cy, w.w1, w.w2, w.w3);
    }
}

} // verus!
