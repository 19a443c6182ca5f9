//! The rasterizer: from three vertices to depth-tested pixels.

use vstd::prelude::*;
use crate::color::{packed, Color};
use crate::coverage::{
    center, covers, degenerate, edge_of, inside, interpolated, lemma_covered_in_box,
    lemma_mean_between, lemma_weights_sum, max3, min3, weights_at, Weights,
};
use crate::fixed::{divide_wide, fx_div, lemma_product_bound, quotient, Fixed, ONE};
use crate::fragment::Fragment;
use crate::geometry::mesh::Mesh;
use crate::framebuffer::{
    lemma_plot_pixels, lemma_plot_with_depth_pixels, same_pixel, written_pixel, Canvas, Framebuffer,
};
use crate::shaders::fragment_shader::{fragment_shader, shaded};
use crate::shaders::vertex_shader::{shaded_vertex, vertex_shader};
use crate::uniforms::Uniforms;
use crate::vector::{normalized, transformed, Angle, Mat4, Vec3, Vec4};
use crate::vertex::{Vertex, Vertex2D};

verus! {

/// The greatest pixel column or row whose center a fixed-point coordinate
/// can name.
pub const MAX_PIXEL: usize = 32767;

/// A vertex on the screen, with what the rasterizer interpolates.
#[derive(Clone, Copy, Debug)]
pub struct ScreenVertex {
    /// Position in pixels, and color.
    pub point: Vertex2D,
    /// Depth in normalized device coordinates.
    pub depth: Fixed,
    /// Normal in world space.
    pub normal: Vec3,
}

/// A clip-space position with a non-zero `w`, divided by its `w`.
pub open spec fn ndc(clip: Vec4) -> Vec4
    recommends
        clip.w != 0,
{
    Vec4 {
        x: quotient(clip.x as int, clip.w as int) as i32,
        y: quotient(clip.y as int, clip.w as int) as i32,
        z: quotient(clip.z as int, clip.w as int) as i32,
        w: ONE,
    }
}

/// A vertex that has been through the vertex stage, divided by its `w` and
/// mapped to the screen by the viewport matrix. A vertex whose `w` is zero
/// has no place on the screen.
pub open spec fn projected(v: Vertex, viewport: Mat4) -> Option<ScreenVertex> {
    if v.transformed_position.w == 0 {
        None
    } else {
        let n = ndc(v.transformed_position);
        let s = transformed(viewport, n);
        Some(
            ScreenVertex {
                point: Vertex2D { x: s.x, y: s.y, color: v.color },
                depth: n.z,
                normal: v.transformed_normal,
            },
        )
    }
}

/// The fragment of a triangle at the pixel `(x, y)`, if the triangle covers
/// the pixel: depth, color and normal are the barycentric means of the three
/// vertices' values at the pixel's center, each rounded toward zero, and the
/// normal is scaled back to unit length.
pub open spec fn fragment_at(a: ScreenVertex, b: ScreenVertex, c: ScreenVertex, x: int, y: int)
    -> Option<Fragment> {
    if covers(a.point, b.point, c.point, x, y) {
        let area = edge_of(a.point, b.point, c.point);
        let w = weights_at(a.point, b.point, c.point, center(x), center(y));
        Some(
            Fragment {
                position: (x as usize, y as usize),
                depth: interpolated(a.depth as int, b.depth as int, c.depth as int, w, area) as i32,
                color: Color {
                    r: interpolated(
                        a.point.color.r as int,
                        b.point.color.r as int,
                        c.point.color.r as int,
                        w,
                        area,
                    ) as u8,
                    g: interpolated(
                        a.point.color.g as int,
                        b.point.color.g as int,
                        c.point.color.g as int,
                        w,
                        area,
                    ) as u8,
                    b: interpolated(
                        a.point.color.b as int,
                        b.point.color.b as int,
                        c.point.color.b as int,
                        w,
                        area,
                    ) as u8,
                },
                normal: normalized(
                    Vec3 {
                        x: interpolated(a.normal.x as int, b.normal.x as int, c.normal.x as int, w, area) as i32,
                        y: interpolated(a.normal.y as int, b.normal.y as int, c.normal.y as int, w, area) as i32,
                        z: interpolated(a.normal.z as int, b.normal.z as int, c.normal.z as int, w, area) as i32,
                    },
                ),
                intensity: ONE,
            },
        )
    } else {
        None
    }
}

/// A triangle has a fragment at exactly the pixels that it covers.
pub proof fn lemma_fragment_where_covered(
    a: ScreenVertex,
    b: ScreenVertex,
    c: ScreenVertex,
    x: int,
    y: int,
)
    ensures
        fragment_at(a, b, c, x, y) is Some <==> covers(a.point, b.point, c.point, x, y),
{
}

/// A degenerate triangle has no fragment anywhere.
pub proof fn lemma_degenerate_has_no_fragment(
    a: ScreenVertex,
    b: ScreenVertex,
    c: ScreenVertex,
    x: int,
    y: int,
)
    requires
        degenerate(edge_of(a.point, b.point, c.point)),
    ensures
        fragment_at(a, b, c, x, y) is None,
{
}

/// The edge function of the line from `a` to `b` at the point `c`:
/// `(c.x - a.x) * (b.y - a.y) - (c.y - a.y) * (b.x - a.x)`, exactly, in
/// units of 2^-32.
pub fn edge_function(a: &Vertex2D, b: &Vertex2D, c: &Vertex2D) -> (r: i128)
    ensures
        r == edge_of(*a, *b, *c),
        -0x2_0000_0000_0000_0000 <= r <= 0x2_0000_0000_0000_0000,
{
    let cax: i64 = (c.x as i64) - (a.x as i64);
    let bay: i64 = (b.y as i64) - (a.y as i64);
    let cay: i64 = (c.y as i64) - (a.y as i64);
    let bax: i64 = (b.x as i64) - (a.x as i64);
    proof {
        lemma_product_bound(cax as int, bay as int, 0x1_0000_0000, 0x1_0000_0000);
        lemma_product_bound(cay as int, bax as int, 0x1_0000_0000, 0x1_0000_0000);
    }
    (cax as i128) * (bay as i128) - (cay as i128) * (bax as i128)
}

/// The barycentric mean of three values, rounded toward zero.
fn interpolate(a1: i32, a2: i32, a3: i32, w1: i128, w2: i128, w3: i128, area: i128) -> (r: i32)
    requires
        area != 0,
        inside(area as int, Weights { w1: w1 as int, w2: w2 as int, w3: w3 as int }),
        w1 + w2 + w3 == area,
        -0x2_0000_0000_0000_0000 <= area <= 0x2_0000_0000_0000_0000,
    ensures
        r == interpolated(
            a1 as int,
            a2 as int,
            a3 as int,
            Weights { w1: w1 as int, w2: w2 as int, w3: w3 as int },
            area as int,
        ),
        min3(a1 as int, a2 as int, a3 as int) <= r <= max3(a1 as int, a2 as int, a3 as int),
{
    let positive: bool = area > 0;
    let u1: i128 = if positive { w1 } else { -w1 };
    let u2: i128 = if positive { w2 } else { -w2 };
    let u3: i128 = if positive { w3 } else { -w3 };
    let total: i128 = if positive { area } else { -area };
    proof {
        lemma_product_bound(a1 as int, u1 as int, 0x8000_0000, 0x2_0000_0000_0000_0000);
        lemma_product_bound(a2 as int, u2 as int, 0x8000_0000, 0x2_0000_0000_0000_0000);
        lemma_product_bound(a3 as int, u3 as int, 0x8000_0000, 0x2_0000_0000_0000_0000);
        lemma_mean_between(a1 as int, a2 as int, a3 as int, u1 as int, u2 as int, u3 as int, total as int);
        if !positive {
            assert(a1 * (-w1) == -(a1 * w1)) by (nonlinear_arith);
            assert(a2 * (-w2) == -(a2 * w2)) by (nonlinear_arith);
            assert(a3 * (-w3) == -(a3 * w3)) by (nonlinear_arith);
        }
    }
    let sum: i128 = (a1 as i128) * u1 + (a2 as i128) * u2 + (a3 as i128) * u3;
    divide_wide(sum, total) as i32
}

/// The fragment of a triangle of signed area `area` at the pixel `(x, y)`.
fn fragment_for(
    a: &ScreenVertex,
    b: &ScreenVertex,
    c: &ScreenVertex,
    area: i128,
    x: usize,
    y: usize,
) -> (f: Option<Fragment>)
    requires
        area == edge_of(a.point, b.point, c.point),
        -0x2_0000_0000_0000_0000 <= area <= 0x2_0000_0000_0000_0000,
        !degenerate(area as int),
        x <= MAX_PIXEL,
        y <= MAX_PIXEL,
    ensures
        f == fragment_at(*a, *b, *c, x as int, y as int),
{
    let p: Vertex2D = Vertex2D::new((x as i32) * 65536 + 32768, (y as i32) * 65536 + 32768, Color::black());
    let w1: i128 = edge_function(&b.point, &c.point, &p);
    let w2: i128 = edge_function(&c.point, &a.point, &p);
    let w3: i128 = edge_function(&a.point, &b.point, &p);
    proof {
        lemma_weights_sum(a.point, b.point, c.point, center(x as int), center(y as int));
    }
    let is_inside: bool = if area > 0 {
        w1 >= 0 && w2 >= 0 && w3 >= 0
    } else {
        w1 <= 0 && w2 <= 0 && w3 <= 0
    };
    if is_inside {
        let depth: Fixed = interpolate(a.depth, b.depth, c.depth, w1, w2, w3, area);
        let r: i32 = interpolate(
            a.point.color.r as i32,
            b.point.color.r as i32,
            c.point.color.r as i32,
            w1,
            w2,
            w3,
            area,
        );
        let g: i32 = interpolate(
            a.point.color.g as i32,
            b.point.color.g as i32,
            c.point.color.g as i32,
            w1,
            w2,
            w3,
            area,
        );
        let bl: i32 = interpolate(
            a.point.color.b as i32,
            b.point.color.b as i32,
            c.point.color.b as i32,
            w1,
            w2,
            w3,
            area,
        );
        let nx: i32 = interpolate(a.normal.x, b.normal.x, c.normal.x, w1, w2, w3, area);
        let ny: i32 = interpolate(a.normal.y, b.normal.y, c.normal.y, w1, w2, w3, area);
        let nz: i32 = interpolate(a.normal.z, b.normal.z, c.normal.z, w1, w2, w3, area);
        let normal: Vec3 = Vec3 { x: nx, y: ny, z: nz }.normalize();
        let mut fragment: Fragment = Fragment::new(x, y, depth);
        fragment.color = Color::new(r as u8, g as u8, bl as u8);
        fragment.normal = normal;
        Some(fragment)
    } else {
        None
    }
}

/// The fragment of a triangle at the pixel `(x, y)`, if the triangle covers
/// the pixel.
pub fn fragment_of(a: &ScreenVertex, b: &ScreenVertex, c: &ScreenVertex, x: usize, y: usize) -> (f:
    Option<Fragment>)
    ensures
        f == fragment_at(*a, *b, *c, x as int, y as int),
{
    let area: i128 = edge_function(&a.point, &b.point, &c.point);
    let size: i128 = if area < 0 {
        -area
    } else {
        area
    };
    if size * 10000 < 0x1_0000_0000 {
        return None;
    }
    if x > MAX_PIXEL || y > MAX_PIXEL {
        proof {
            if covers(a.point, b.point, c.point, x as int, y as int) {
                lemma_covered_in_box(a.point, b.point, c.point, x as int, y as int);
            }
        }
        return None;
    }
    fragment_for(a, b, c, area, x, y)
}

/// The first and the last of the pixel columns, out of `limit`, whose
/// centers lie between the coordinates `lo` and `hi`; the same for rows.
fn pixel_span(lo: Fixed, hi: Fixed, limit: usize) -> (r: Option<(usize, usize)>)
    requires
        lo <= hi,
    ensures
        match r {
            Some((first, last)) => {
                &&& first <= last < limit
                &&& last <= MAX_PIXEL
                &&& forall|i: int|
                    0 <= i < limit && lo <= #[trigger] center(i) && center(i) <= hi ==> first <= i
                        <= last
            },
            None => forall|i: int|
                0 <= i < limit ==> !(lo <= #[trigger] center(i) && center(i) <= hi),
        },
{
    if hi < 0 || limit == 0 {
        return None;
    }
    let first: usize = if lo < 0 {
        0
    } else {
        (lo / 65536) as usize
    };
    let reach: usize = (hi / 65536) as usize;
    let last: usize = if reach > limit - 1 {
        limit - 1
    } else {
        reach
    };
    if first > last {
        return None;
    }
    Some((first, last))
}

fn least(a: Fixed, b: Fixed, c: Fixed) -> (r: Fixed)
    ensures
        r == min3(a as int, b as int, c as int),
{
    if a <= b && a <= c {
        a
    } else if b <= c {
        b
    } else {
        c
    }
}

fn greatest(a: Fixed, b: Fixed, c: Fixed) -> (r: Fixed)
    ensures
        r == max3(a as int, b as int, c as int),
{
    if a >= b && a >= c {
        a
    } else if b >= c {
        b
    } else {
        c
    }
}

/// The pixel `(x, y)` of `after` is what the fragment stage and the depth
/// test make of the pixel of `before`: unchanged where there is no fragment,
/// and else written, if the fragment is nearer, with a color that the
/// fragment stage gives for the fragment.
pub open spec fn shaded_pixel<T: Fn(Fixed) -> Angle, N: Fn(Fixed, Fixed, Fixed) -> Fixed>(
    before: Canvas,
    after: Canvas,
    fragment: Option<Fragment>,
    u: Uniforms,
    trig: &T,
    noise: &N,
    x: int,
    y: int,
) -> bool {
    match fragment {
        None => same_pixel(before, after, x, y),
        Some(f) => exists|c: Color| #[trigger]
            shaded(f, u, trig, noise, c) && written_pixel(before, after, x, y, f.depth, c),
    }
}

/// What a draw call leaves of a pixel, by where the pixel's center lies: a
/// pixel strictly inside a triangle that is not degenerate has had exactly
/// one depth-tested write of its shaded fragment, a pixel strictly outside
/// is as it was, and no pixel is farther away than it was.
pub proof fn lemma_shaded_inside_only<T: Fn(Fixed) -> Angle, N: Fn(Fixed, Fixed, Fixed) -> Fixed>(
    before: Canvas,
    after: Canvas,
    a: ScreenVertex,
    b: ScreenVertex,
    c: ScreenVertex,
    u: Uniforms,
    trig: &T,
    noise: &N,
    x: int,
    y: int,
)
    requires
        !degenerate(edge_of(a.point, b.point, c.point)),
        shaded_pixel(before, after, fragment_at(a, b, c, x, y), u, trig, noise, x, y),
    ensures
        crate::coverage::strictly_inside(
            edge_of(a.point, b.point, c.point),
            weights_at(a.point, b.point, c.point, center(x), center(y)),
        ) ==> fragment_at(a, b, c, x, y) is Some && exists|color: Color| #[trigger]
            shaded(fragment_at(a, b, c, x, y)->0, u, trig, noise, color) && written_pixel(
                before,
                after,
                x,
                y,
                fragment_at(a, b, c, x, y)->0.depth,
                color,
            ),
        crate::coverage::strictly_outside(
            edge_of(a.point, b.point, c.point),
            weights_at(a.point, b.point, c.point, center(x), center(y)),
        ) ==> same_pixel(before, after, x, y),
        after.depth_at(x, y) <= before.depth_at(x, y),
{
}

/// Shades and writes the pixels `x0..=x1` of row `y`.
fn fill_row<T: Fn(Fixed) -> Angle, N: Fn(Fixed, Fixed, Fixed) -> Fixed>(
    a: &ScreenVertex,
    b: &ScreenVertex,
    c: &ScreenVertex,
    area: i128,
    uniforms: &Uniforms,
    framebuffer: &mut Framebuffer,
    trig: &T,
    noise: &N,
    y: usize,
    x0: usize,
    x1: usize,
)
    requires
        old(framebuffer).wf(),
        forall|a: Fixed| call_requires(trig, (a,)),
        forall|x: Fixed, y: Fixed, z: Fixed| call_requires(noise, (x, y, z)),
        area == edge_of(a.point, b.point, c.point),
        -0x2_0000_0000_0000_0000 <= area <= 0x2_0000_0000_0000_0000,
        !degenerate(area as int),
        x0 <= x1 <= MAX_PIXEL,
        x1 < old(framebuffer).width,
        y <= MAX_PIXEL,
        y < old(framebuffer).height,
    ensures
        final(framebuffer).wf(),
        final(framebuffer)@.width == old(framebuffer)@.width,
        final(framebuffer)@.height == old(framebuffer)@.height,
        final(framebuffer)@.background == old(framebuffer)@.background,
        forall|px: int, py: int|
            old(framebuffer)@.contains(px, py) ==> if py == y && x0 <= px <= x1 {
                shaded_pixel(
                    old(framebuffer)@,
                    final(framebuffer)@,
                    fragment_at(*a, *b, *c, px, py),
                    *uniforms,
                    trig,
                    noise,
                    px,
                    py,
                )
            } else {
                same_pixel(old(framebuffer)@, final(framebuffer)@, px, py)
            },
        (forall|px: int| x0 <= px <= x1 ==> fragment_at(*a, *b, *c, px, y as int) is None)
            ==> final(framebuffer)@ == old(framebuffer)@,
{
    let mut x: usize = x0;
    while x <= x1
        invariant
            framebuffer.wf(),
            forall|a: Fixed| call_requires(trig, (a,)),
        forall|x: Fixed, y: Fixed, z: Fixed| call_requires(noise, (x, y, z)),
            area == edge_of(a.point, b.point, c.point),
            -0x2_0000_0000_0000_0000 <= area <= 0x2_0000_0000_0000_0000,
            !degenerate(area as int),
            x0 <= x <= x1 + 1,
            x1 <= MAX_PIXEL,
            x1 < framebuffer.width,
            y <= MAX_PIXEL,
            y < framebuffer.height,
            framebuffer@.width == old(framebuffer)@.width,
            framebuffer@.height == old(framebuffer)@.height,
            framebuffer@.background == old(framebuffer)@.background,
            forall|px: int, py: int|
                old(framebuffer)@.contains(px, py) ==> if py == y && x0 <= px < x {
                    shaded_pixel(
                        old(framebuffer)@,
                        framebuffer@,
                        fragment_at(*a, *b, *c, px, py),
                        *uniforms,
                        trig,
                        noise,
                        px,
                        py,
                    )
                } else {
                    same_pixel(old(framebuffer)@, framebuffer@, px, py)
                },
            (forall|px: int| x0 <= px < x ==> fragment_at(*a, *b, *c, px, y as int) is None)
                ==> framebuffer@ == old(framebuffer)@,
        decreases x1 + 1 - x,
    {
        let ghost before = framebuffer@;
        match fragment_for(a, b, c, area, x, y) {
            Some(fragment) => {
                let shaded_color: Color = fragment_shader(&fragment, uniforms, trig, noise);
                framebuffer.point_with_depth(x, y, fragment.depth, &shaded_color);
                proof {
                    lemma_plot_with_depth_pixels(
                        before,
                        x as int,
                        y as int,
                        fragment.depth,
                        shaded_color,
                    );
                    assert(old(framebuffer)@.contains(x as int, y as int));
                    assert(same_pixel(old(framebuffer)@, before, x as int, y as int));
                    assert(written_pixel(
                        old(framebuffer)@,
                        framebuffer@,
                        x as int,
                        y as int,
                        fragment.depth,
                        shaded_color,
                    ));
                    assert(shaded(fragment, *uniforms, trig, noise, shaded_color));
                    assert(shaded_pixel(
                        old(framebuffer)@,
                        framebuffer@,
                        fragment_at(*a, *b, *c, x as int, y as int),
                        *uniforms,
                        trig,
                        noise,
                        x as int,
                        y as int,
                    ));
                }
            },
            None => {},
        }
        x += 1;
    }
}

/// Fills a triangle given on the screen: every pixel of the framebuffer that
/// the triangle covers gets one depth-tested write of its shaded fragment,
/// and no other pixel changes. A degenerate triangle changes nothing.
pub fn fill_triangle<T: Fn(Fixed) -> Angle, N: Fn(Fixed, Fixed, Fixed) -> Fixed>(
    a: &ScreenVertex,
    b: &ScreenVertex,
    c: &ScreenVertex,
    uniforms: &Uniforms,
    framebuffer: &mut Framebuffer,
    trig: &T,
    noise: &N,
)
    requires
        old(framebuffer).wf(),
        forall|a: Fixed| call_requires(trig, (a,)),
        forall|x: Fixed, y: Fixed, z: Fixed| call_requires(noise, (x, y, z)),
    ensures
        final(framebuffer).wf(),
        final(framebuffer)@.width == old(framebuffer)@.width,
        final(framebuffer)@.height == old(framebuffer)@.height,
        final(framebuffer)@.background == old(framebuffer)@.background,
        forall|px: int, py: int|
            old(framebuffer)@.contains(px, py) ==> shaded_pixel(
                old(framebuffer)@,
                final(framebuffer)@,
                fragment_at(*a, *b, *c, px, py),
                *uniforms,
                trig,
                noise,
                px,
                py,
            ),
        (forall|px: int, py: int|
            old(framebuffer)@.contains(px, py) ==> fragment_at(*a, *b, *c, px, py) is None)
            ==> final(framebuffer)@ == old(framebuffer)@,
{
    let area: i128 = edge_function(&a.point, &b.point, &c.point);
    let size: i128 = if area < 0 {
        -area
    } else {
        area
    };
    if size * 10000 < 0x1_0000_0000 {
        return ;
    }
    let columns: Option<(usize, usize)> = pixel_span(
        least(a.point.x, b.point.x, c.point.x),
        greatest(a.point.x, b.point.x, c.point.x),
        framebuffer.width,
    );
    let rows: Option<(usize, usize)> = pixel_span(
        least(a.point.y, b.point.y, c.point.y),
        greatest(a.point.y, b.point.y, c.point.y),
        framebuffer.height,
    );
    proof {
        assert forall|px: int, py: int|
            old(framebuffer)@.contains(px, py) && covers(a.point, b.point, c.point, px, py) implies {
            &&& min3(a.point.x as int, b.point.x as int, c.point.x as int) <= #[trigger] center(px)
            &&& center(px) <= max3(a.point.x as int, b.point.x as int, c.point.x as int)
            &&& min3(a.point.y as int, b.point.y as int, c.point.y as int) <= #[trigger] center(py)
            &&& center(py) <= max3(a.point.y as int, b.point.y as int, c.point.y as int)
        } by {
            lemma_covered_in_box(a.point, b.point, c.point, px, py);
        }
    }
    match (columns, rows) {
        (Some((x0, x1)), Some((y0, y1))) => {
            let mut y: usize = y0;
            while y <= y1
                invariant
                    framebuffer.wf(),
                    forall|a: Fixed| call_requires(trig, (a,)),
        forall|x: Fixed, y: Fixed, z: Fixed| call_requires(noise, (x, y, z)),
                    area == edge_of(a.point, b.point, c.point),
                    -0x2_0000_0000_0000_0000 <= area <= 0x2_0000_0000_0000_0000,
                    !degenerate(area as int),
                    x0 <= x1 <= MAX_PIXEL,
                    x1 < framebuffer.width,
                    y0 <= y <= y1 + 1,
                    y1 <= MAX_PIXEL,
                    y1 < framebuffer.height,
                    framebuffer@.width == old(framebuffer)@.width,
                    framebuffer@.height == old(framebuffer)@.height,
                    framebuffer@.background == old(framebuffer)@.background,
                    forall|px: int, py: int|
                        old(framebuffer)@.contains(px, py) ==> if y0 <= py < y && x0 <= px <= x1 {
                            shaded_pixel(
                                old(framebuffer)@,
                                framebuffer@,
                                fragment_at(*a, *b, *c, px, py),
                                *uniforms,
                                trig,
                                noise,
                                px,
                                py,
                            )
                        } else {
                            same_pixel(old(framebuffer)@, framebuffer@, px, py)
                        },
                    (forall|px: int, py: int|
                        x0 <= px <= x1 && y0 <= py < y ==> fragment_at(*a, *b, *c, px, py) is None)
                        ==> framebuffer@ == old(framebuffer)@,
                decreases y1 + 1 - y,
            {
                let ghost before = framebuffer@;
                fill_row(a, b, c, area, uniforms, framebuffer, trig, noise, y, x0, x1);
                proof {
                    assert forall|px: int, py: int|
                        old(framebuffer)@.contains(px, py) implies if y0 <= py < y + 1 && x0 <= px
                        <= x1 {
                        shaded_pixel(
                            old(framebuffer)@,
                            framebuffer@,
                            fragment_at(*a, *b, *c, px, py),
                            *uniforms,
                            trig,
                            noise,
                            px,
                            py,
                        )
                    } else {
                        same_pixel(old(framebuffer)@, framebuffer@, px, py)
                    } by {
                        assert(before.contains(px, py));
                        lemma_shaded_pixel_carries(
                            old(framebuffer)@,
                            before,
                            framebuffer@,
                            fragment_at(*a, *b, *c, px, py),
                            *uniforms,
                            trig,
                            noise,
                            px,
                            py,
                        );
                    }
                }
                y += 1;
            }
        },
        _ => {},
    }
}

/// A pixel untouched by one of two steps is, after both, what the other
/// step made of it.
proof fn lemma_shaded_pixel_carries<T: Fn(Fixed) -> Angle, N: Fn(Fixed, Fixed, Fixed) -> Fixed>(
    first: Canvas,
    second: Canvas,
    third: Canvas,
    fragment: Option<Fragment>,
    u: Uniforms,
    trig: &T,
    noise: &N,
    x: int,
    y: int,
)
    ensures
        same_pixel(first, second, x, y) && same_pixel(second, third, x, y) ==> same_pixel(
            first,
            third,
            x,
            y,
        ),
        same_pixel(first, second, x, y) && shaded_pixel(second, third, fragment, u, trig, noise, x, y)
            ==> shaded_pixel(first, third, fragment, u, trig, noise, x, y),
        shaded_pixel(first, second, fragment, u, trig, noise, x, y) && same_pixel(second, third, x, y)
            ==> shaded_pixel(first, third, fragment, u, trig, noise, x, y),
{
    match fragment {
        None => {},
        Some(f) => {
            if same_pixel(first, second, x, y) && shaded_pixel(
                second,
                third,
                fragment,
                u,
                trig,
                noise,
                x,
                y,
            ) {
                let c = choose|c: Color| #[trigger]
                    shaded(f, u, trig, noise, c) && written_pixel(second, third, x, y, f.depth, c);
                assert(written_pixel(first, third, x, y, f.depth, c));
            }
            if shaded_pixel(first, second, fragment, u, trig, noise, x, y) && same_pixel(
                second,
                third,
                x,
                y,
            ) {
                let c = choose|c: Color| #[trigger]
                    shaded(f, u, trig, noise, c) && written_pixel(first, second, x, y, f.depth, c);
                assert(written_pixel(first, third, x, y, f.depth, c));
            }
        },
    }
}

/// Divides a vertex that has been through the vertex stage by its `w` and
/// maps it to the screen. A vertex whose `w` is zero gives nothing.
pub fn project(v: &Vertex, viewport: &Mat4) -> (r: Option<ScreenVertex>)
    ensures
        r == projected(*v, *viewport),
{
    let clip: Vec4 = v.transformed_position;
    if clip.w == 0 {
        return None;
    }
    let n: Vec4 = Vec4 {
        x: fx_div(clip.x, clip.w),
        y: fx_div(clip.y, clip.w),
        z: fx_div(clip.z, clip.w),
        w: 65536,
    };
    let s: Vec4 = viewport.transform(&n);
    Some(
        ScreenVertex {
            point: Vertex2D::new(s.x, s.y, v.color),
            depth: n.z,
            normal: v.transformed_normal,
        },
    )
}

/// The fragment at the pixel `(x, y)` of the triangle with the given mesh
/// vertices, drawn under the uniforms `u`. A triangle with a vertex whose
/// clip-space `w` is zero has no fragments.
pub open spec fn drawn_fragment(v1: Vertex, v2: Vertex, v3: Vertex, u: Uniforms, x: int, y: int)
    -> Option<Fragment> {
    match (
        projected(shaded_vertex(v1, u), u.viewport_matrix),
        projected(shaded_vertex(v2, u), u.viewport_matrix),
        projected(shaded_vertex(v3, u), u.viewport_matrix),
    ) {
        (Some(a), Some(b), Some(c)) => fragment_at(a, b, c, x, y),
        _ => None,
    }
}

/// `after` is what drawing one triangle makes of `before`: every pixel that
/// the triangle covers has had one depth-tested write of its shaded
/// fragment, and nothing else has changed.
pub open spec fn triangle_drawn<T: Fn(Fixed) -> Angle, N: Fn(Fixed, Fixed, Fixed) -> Fixed>(
    before: Canvas,
    after: Canvas,
    v1: Vertex,
    v2: Vertex,
    v3: Vertex,
    u: Uniforms,
    trig: &T,
    noise: &N,
) -> bool {
    &&& after.wf()
    &&& after.width == before.width
    &&& after.height == before.height
    &&& after.background == before.background
    &&& forall|px: int, py: int|
        before.contains(px, py) ==> shaded_pixel(
            before,
            after,
            drawn_fragment(v1, v2, v3, u, px, py),
            u,
            trig,
            noise,
            px,
            py,
        )
}

/// The canvases `steps` are the states that a framebuffer goes through as
/// the first triangles of a vertex list are drawn in order, one more
/// triangle from each canvas to the next.
pub open spec fn drawing_steps<T: Fn(Fixed) -> Angle, N: Fn(Fixed, Fixed, Fixed) -> Fixed>(
    steps: Seq<Canvas>,
    vertices: Seq<Vertex>,
    u: Uniforms,
    trig: &T,
    noise: &N,
) -> bool {
    forall|k: int|
        0 <= k < steps.len() - 1 ==> triangle_drawn(
            #[trigger] steps[k],
            steps[k + 1],
            vertices[3 * k],
            vertices[3 * k + 1],
            vertices[3 * k + 2],
            u,
            trig,
            noise,
        )
}

/// `after` is what drawing the first `n` triangles of a vertex list, in
/// order, makes of `before`.
pub open spec fn triangles_drawn<T: Fn(Fixed) -> Angle, N: Fn(Fixed, Fixed, Fixed) -> Fixed>(
    before: Canvas,
    after: Canvas,
    vertices: Seq<Vertex>,
    n: nat,
    u: Uniforms,
    trig: &T,
    noise: &N,
) -> bool {
    exists|steps: Seq<Canvas>|
        {
            &&& steps.len() == n + 1
            &&& steps[0] == before
            &&& steps[n as int] == after
            &&& #[trigger] drawing_steps(steps, vertices, u, trig, noise)
        }
}

/// Draws one triangle of a mesh: runs the vertex stage on its vertices,
/// projects them to the screen and fills the triangle. Every pixel that the
/// triangle covers gets one depth-tested write of its shaded fragment, with
/// sines, cosines and coherent noise asked of `trig` and `noise`; no other
/// pixel changes.
pub fn triangle_3d<T: Fn(Fixed) -> Angle, N: Fn(Fixed, Fixed, Fixed) -> Fixed>(
    v1: &Vertex,
    v2: &Vertex,
    v3: &Vertex,
    uniforms: &Uniforms,
    framebuffer: &mut Framebuffer,
    trig: &T,
    noise: &N,
)
    requires
        old(framebuffer).wf(),
        forall|a: Fixed| call_requires(trig, (a,)),
        forall|x: Fixed, y: Fixed, z: Fixed| call_requires(noise, (x, y, z)),
    ensures
        final(framebuffer).wf(),
        final(framebuffer)@.width == old(framebuffer)@.width,
        final(framebuffer)@.height == old(framebuffer)@.height,
        final(framebuffer)@.background == old(framebuffer)@.background,
        forall|px: int, py: int|
            old(framebuffer)@.contains(px, py) ==> shaded_pixel(
                old(framebuffer)@,
                final(framebuffer)@,
                drawn_fragment(*v1, *v2, *v3, *uniforms, px, py),
                *uniforms,
                trig,
                noise,
                px,
                py,
            ),
        (forall|px: int, py: int|
            old(framebuffer)@.contains(px, py) ==> drawn_fragment(*v1, *v2, *v3, *uniforms, px, py)
                is None) ==> final(framebuffer)@ == old(framebuffer)@,
{
    let vt1: Vertex = vertex_shader(v1, uniforms);
    let vt2: Vertex = vertex_shader(v2, uniforms);
    let vt3: Vertex = vertex_shader(v3, uniforms);
    let s1: Option<ScreenVertex> = project(&vt1, &uniforms.viewport_matrix);
    let s2: Option<ScreenVertex> = project(&vt2, &uniforms.viewport_matrix);
    let s3: Option<ScreenVertex> = project(&vt3, &uniforms.viewport_matrix);
    match (s1, s2, s3) {
        (Some(a), Some(b), Some(c)) => {
            fill_triangle(&a, &b, &c, uniforms, framebuffer, trig, noise);
        },
        _ => {},
    }
}

/// The color that a flat triangle gives the pixel `(x, y)`, if it covers
/// the pixel and winds the positive way: the barycentric mean of the three
/// vertex colors at the pixel's center, each channel rounded toward zero.
pub open spec fn flat_color_at(v1: Vertex2D, v2: Vertex2D, v3: Vertex2D, x: int, y: int) -> Option<
    Color,
> {
    let area = edge_of(v1, v2, v3);
    let w = weights_at(v1, v2, v3, center(x), center(y));
    if covers(v1, v2, v3, x, y) && area > 0 {
        Some(
            Color {
                r: interpolated(v1.color.r as int, v2.color.r as int, v3.color.r as int, w, area) as u8,
                g: interpolated(v1.color.g as int, v2.color.g as int, v3.color.g as int, w, area) as u8,
                b: interpolated(v1.color.b as int, v2.color.b as int, v3.color.b as int, w, area) as u8,
            },
        )
    } else {
        None
    }
}

/// The color of the pixel `(x, y)` after a flat triangle has been drawn
/// over the canvas `before`.
pub open spec fn flat_pixel(before: Canvas, v1: Vertex2D, v2: Vertex2D, v3: Vertex2D, x: int, y: int)
    -> u32 {
    match flat_color_at(v1, v2, v3, x, y) {
        Some(c) => packed(c) as u32,
        None => before.color_at(x, y),
    }
}

/// The color of a flat triangle of signed area `area` at the pixel `(x, y)`.
fn flat_color_for(v1: &Vertex2D, v2: &Vertex2D, v3: &Vertex2D, area: i128, x: usize, y: usize) -> (r:
    Option<Color>)
    requires
        area == edge_of(*v1, *v2, *v3),
        -0x2_0000_0000_0000_0000 <= area <= 0x2_0000_0000_0000_0000,
        !degenerate(area as int),
        x <= MAX_PIXEL,
        y <= MAX_PIXEL,
    ensures
        r == flat_color_at(*v1, *v2, *v3, x as int, y as int),
{
    let p: Vertex2D = Vertex2D::new((x as i32) * 65536 + 32768, (y as i32) * 65536 + 32768, Color::black());
    let w1: i128 = edge_function(v2, v3, &p);
    let w2: i128 = edge_function(v3, v1, &p);
    let w3: i128 = edge_function(v1, v2, &p);
    proof {
        lemma_weights_sum(*v1, *v2, *v3, center(x as int), center(y as int));
    }
    if w1 >= 0 && w2 >= 0 && w3 >= 0 {
        let r: i32 = interpolate(v1.color.r as i32, v2.color.r as i32, v3.color.r as i32, w1, w2, w3, area);
        let g: i32 = interpolate(v1.color.g as i32, v2.color.g as i32, v3.color.g as i32, w1, w2, w3, area);
        let b: i32 = interpolate(v1.color.b as i32, v2.color.b as i32, v3.color.b as i32, w1, w2, w3, area);
        Some(Color::new(r as u8, g as u8, b as u8))
    } else {
        None
    }
}

/// Draws a flat triangle given in screen coordinates, without a depth test:
/// every pixel that the triangle covers takes the mean of the vertex colors
/// at its center, and no other pixel changes. Only a triangle that winds
/// the positive way is drawn, and a degenerate one changes nothing.
pub fn triangle(v1: &Vertex2D, v2: &Vertex2D, v3: &Vertex2D, framebuffer: &mut Framebuffer)
    requires
        old(framebuffer).wf(),
    ensures
        final(framebuffer).wf(),
        final(framebuffer)@.width == old(framebuffer)@.width,
        final(framebuffer)@.height == old(framebuffer)@.height,
        final(framebuffer)@.background == old(framebuffer)@.background,
        final(framebuffer)@.depths == old(framebuffer)@.depths,
        forall|px: int, py: int|
            old(framebuffer)@.contains(px, py) ==> final(framebuffer)@.color_at(px, py) == flat_pixel(
                old(framebuffer)@,
                *v1,
                *v2,
                *v3,
                px,
                py,
            ),
        degenerate(edge_of(*v1, *v2, *v3)) ==> final(framebuffer)@ == old(framebuffer)@,
{
    let area: i128 = edge_function(v1, v2, v3);
    let size: i128 = if area < 0 {
        -area
    } else {
        area
    };
    if size * 10000 < 0x1_0000_0000 {
        return ;
    }
    let columns: Option<(usize, usize)> = pixel_span(
        least(v1.x, v2.x, v3.x),
        greatest(v1.x, v2.x, v3.x),
        framebuffer.width,
    );
    let rows: Option<(usize, usize)> = pixel_span(
        least(v1.y, v2.y, v3.y),
        greatest(v1.y, v2.y, v3.y),
        framebuffer.height,
    );
    proof {
        assert forall|px: int, py: int|
            old(framebuffer)@.contains(px, py) && covers(*v1, *v2, *v3, px, py) implies {
            &&& min3(v1.x as int, v2.x as int, v3.x as int) <= #[trigger] center(px)
            &&& center(px) <= max3(v1.x as int, v2.x as int, v3.x as int)
            &&& min3(v1.y as int, v2.y as int, v3.y as int) <= #[trigger] center(py)
            &&& center(py) <= max3(v1.y as int, v2.y as int, v3.y as int)
        } by {
            lemma_covered_in_box(*v1, *v2, *v3, px, py);
        }
    }
    match (columns, rows) {
        (Some((x0, x1)), Some((y0, y1))) => {
            let mut y: usize = y0;
            while y <= y1
                invariant
                    framebuffer.wf(),
                    area == edge_of(*v1, *v2, *v3),
                    -0x2_0000_0000_0000_0000 <= area <= 0x2_0000_0000_0000_0000,
                    !degenerate(area as int),
                    x0 <= x1 <= MAX_PIXEL,
                    x1 < framebuffer.width,
                    y0 <= y <= y1 + 1,
                    y1 <= MAX_PIXEL,
                    y1 < framebuffer.height,
                    framebuffer@.width == old(framebuffer)@.width,
                    framebuffer@.height == old(framebuffer)@.height,
                    framebuffer@.background == old(framebuffer)@.background,
                    framebuffer@.depths == old(framebuffer)@.depths,
                    forall|px: int, py: int|
                        old(framebuffer)@.contains(px, py) ==> #[trigger] framebuffer@.color_at(px, py)
                            == if y0 <= py < y && x0 <= px <= x1 {
                            flat_pixel(old(framebuffer)@, *v1, *v2, *v3, px, py)
                        } else {
                            old(framebuffer)@.color_at(px, py)
                        },
                decreases y1 + 1 - y,
            {
                let mut x: usize = x0;
                while x <= x1
                    invariant
                        framebuffer.wf(),
                        area == edge_of(*v1, *v2, *v3),
                        -0x2_0000_0000_0000_0000 <= area <= 0x2_0000_0000_0000_0000,
                        !degenerate(area as int),
                        x0 <= x <= x1 + 1,
                        x1 <= MAX_PIXEL,
                        x1 < framebuffer.width,
                        y0 <= y <= y1,
                        y1 <= MAX_PIXEL,
                        y1 < framebuffer.height,
                        framebuffer@.width == old(framebuffer)@.width,
                        framebuffer@.height == old(framebuffer)@.height,
                        framebuffer@.background == old(framebuffer)@.background,
                        framebuffer@.depths == old(framebuffer)@.depths,
                        forall|px: int, py: int|
                            old(framebuffer)@.contains(px, py) ==> #[trigger] framebuffer@.color_at(
                                px,
                                py,
                            ) == if x0 <= px <= x1 && (y0 <= py < y || (py == y && px < x)) {
                                flat_pixel(old(framebuffer)@, *v1, *v2, *v3, px, py)
                            } else {
                                old(framebuffer)@.color_at(px, py)
                            },
                    decreases x1 + 1 - x,
                {
                    let ghost before = framebuffer@;
                    match flat_color_for(v1, v2, v3, area, x, y) {
                        Some(color) => {
                            framebuffer.point(x, y, &color);
                            proof {
                                lemma_plot_pixels(before, x as int, y as int, color);
                            }
                        },
                        None => {},
                    }
                    x += 1;
                }
                y += 1;
            }
        },
        _ => {},
    }
}

/// Draws the triangles of a mesh in order. Every three vertices in a row
/// form one triangle; one or two left over at the end are not drawn.
pub fn draw_mesh<T: Fn(Fixed) -> Angle, N: Fn(Fixed, Fixed, Fixed) -> Fixed>(
    mesh: &Mesh,
    uniforms: &Uniforms,
    framebuffer: &mut Framebuffer,
    trig: &T,
    noise: &N,
)
    requires
        old(framebuffer).wf(),
        forall|a: Fixed| call_requires(trig, (a,)),
        forall|x: Fixed, y: Fixed, z: Fixed| call_requires(noise, (x, y, z)),
    ensures
        final(framebuffer).wf(),
        final(framebuffer)@.width == old(framebuffer)@.width,
        final(framebuffer)@.height == old(framebuffer)@.height,
        final(framebuffer)@.background == old(framebuffer)@.background,
        triangles_drawn(
            old(framebuffer)@,
            final(framebuffer)@,
            mesh.vertices@,
            (mesh.vertices@.len() / 3) as nat,
            *uniforms,
            trig,
            noise,
        ),
{
    let count: usize = mesh.vertices.len() / 3;
    let ghost mut steps: Seq<Canvas> = seq![framebuffer@];
    let mut k: usize = 0;
    while k < count
        invariant
            k <= count,
            count == mesh.vertices@.len() / 3,
            3 * count <= mesh.vertices.len(),
            framebuffer.wf(),
            forall|a: Fixed| call_requires(trig, (a,)),
        forall|x: Fixed, y: Fixed, z: Fixed| call_requires(noise, (x, y, z)),
            framebuffer@.width == old(framebuffer)@.width,
            framebuffer@.height == old(framebuffer)@.height,
            framebuffer@.background == old(framebuffer)@.background,
            steps.len() == k + 1,
            steps[0] == old(framebuffer)@,
            steps[k as int] == framebuffer@,
            drawing_steps(steps, mesh.vertices@, *uniforms, trig, noise),
        decreases count - k,
    {
        let ghost before = framebuffer@;
        let ghost earlier = steps;
        let i: usize = 3 * k;
        triangle_3d(
            &mesh.vertices[i],
            &mesh.vertices[i + 1],
            &mesh.vertices[i + 2],
            uniforms,
            framebuffer,
            trig,
            noise,
        );
        proof {
            steps = earlier.push(framebuffer@);
            assert forall|j: int| 0 <= j < steps.len() - 1 implies triangle_drawn(
                #[trigger] steps[j],
                steps[j + 1],
                mesh.vertices@[3 * j],
                mesh.vertices@[3 * j + 1],
                mesh.vertices@[3 * j + 2],
                *uniforms,
                trig,
                noise,
            ) by {
                if j < k {
                    assert(steps[j] == earlier[j]);
                    assert(steps[j + 1] == earlier[j + 1]);
                }
            }
        }
        k += 1;
    }
}

} // verus!
