use soft_renderer::celestial::planet::PlanetShader;
use soft_renderer::color::Color;
use soft_renderer::fixed::{Fixed, HALF, ONE};
use soft_renderer::fragment::Fragment;
use soft_renderer::framebuffer::Framebuffer;
use soft_renderer::pipeline::{
    edge_function, fill_triangle, fragment_of, project, triangle, triangle_3d, ScreenVertex,
};
use soft_renderer::shaders::fragment_shader::fragment_shader;
use soft_renderer::shaders::vertex_shader::vertex_shader;
use soft_renderer::uniforms::{create_viewport_matrix, Uniforms};
use soft_renderer::vector::{Angle, Mat4, Vec3, Vec4};
use soft_renderer::vertex::{Vertex, Vertex2D};

fn fx(v: f64) -> Fixed {
    (v * 65536.0).round() as Fixed
}

/// Sine and cosine of the angle zero, whatever is asked.
fn flat(_angle: Fixed) -> Angle {
    Angle { sin: 0, cos: ONE }
}

/// Coherent noise that is zero everywhere.
fn still(_x: Fixed, _y: Fixed, _z: Fixed) -> Fixed {
    0
}

/// The fragments of a triangle on a screen of the given size, row by row.
fn fragments(a: &ScreenVertex, b: &ScreenVertex, c: &ScreenVertex, w: usize, h: usize) -> Vec<Fragment> {
    let mut all = Vec::new();
    for y in 0..h {
        for x in 0..w {
            if let Some(f) = fragment_of(a, b, c, x, y) {
                all.push(f);
            }
        }
    }
    all
}

fn screen(x: f64, y: f64, depth: f64, color: Color) -> ScreenVertex {
    ScreenVertex {
        point: Vertex2D::new(fx(x), fx(y), color),
        depth: fx(depth),
        normal: Vec3::new(0, 0, -ONE),
    }
}

/// The sign test of the edge functions, in floating point.
fn inside(a: (f64, f64), b: (f64, f64), c: (f64, f64), p: (f64, f64)) -> (bool, bool) {
    let e = |a: (f64, f64), b: (f64, f64), c: (f64, f64)| {
        (c.0 - a.0) * (b.1 - a.1) - (c.1 - a.1) * (b.0 - a.0)
    };
    let area = e(a, b, c);
    let s = area.signum();
    let w = [e(b, c, p) * s, e(c, a, p) * s, e(a, b, p) * s];
    (w.iter().all(|v| *v > 0.0), w.iter().any(|v| *v < 0.0))
}

#[test]
fn covered_pixels_are_written_once_and_others_never() {
    let a = (1.25, 0.75);
    let b = (2.0, 9.5);
    let c = (10.75, 3.25);
    // A star asks for coherent noise once for every fragment that it shades.
    let mut u = Uniforms::new();
    u.is_star = true;
    for (p, q, r) in [(a, b, c), (a, c, b)] {
        let mut fb = Framebuffer::new(12, 11);
        fb.clear();
        let bg = fb.buffer[0];
        let calls = std::cell::Cell::new(0usize);
        let counting = |_x: Fixed, _y: Fixed, _z: Fixed| {
            calls.set(calls.get() + 1);
            -ONE
        };
        fill_triangle(
            &screen(p.0, p.1, 0.5, Color::white()),
            &screen(q.0, q.1, 0.5, Color::white()),
            &screen(r.0, r.1, 0.5, Color::white()),
            &u,
            &mut fb,
            &flat,
            &counting,
        );
        let mut written = 0;
        for y in 0..11 {
            for x in 0..12 {
                let (strictly_in, strictly_out) = inside(p, q, r, (x as f64 + 0.5, y as f64 + 0.5));
                let changed = fb.buffer[y * 12 + x] != bg;
                if strictly_in {
                    assert!(changed, "pixel ({x}, {y}) inside but not written");
                }
                if strictly_out {
                    assert!(!changed, "pixel ({x}, {y}) outside but written");
                }
                if changed {
                    written += 1;
                    assert_eq!(fb.buffer[y * 12 + x], Color::new(255, 200, 0).to_hex());
                    assert_eq!(fb.depth_buffer[y * 12 + x], HALF);
                } else {
                    assert_eq!(fb.depth_buffer[y * 12 + x], ONE);
                }
            }
        }
        assert!(written > 20);
        assert_eq!(calls.get(), written);
    }
}

#[test]
fn small_right_triangle_covers_known_pixels() {
    // Corners (0,0), (0,4), (4,0): centers with x + y < 4 are inside, and
    // those with x + y = 4 lie on the long edge, which no center does.
    let mut fb = Framebuffer::new(4, 4);
    fill_triangle(
        &screen(0.0, 0.0, 0.25, Color::white()),
        &screen(0.0, 4.0, 0.25, Color::white()),
        &screen(4.0, 0.0, 0.25, Color::white()),
        &Uniforms::new(),
        &mut fb,
        &flat,
        &still,
    );
    let w = 0xffffffu32;
    assert_eq!(
        fb.buffer,
        vec![w, w, w, w, w, w, w, 0, w, w, 0, 0, w, 0, 0, 0]
    );
}

#[test]
fn pixel_center_on_an_edge_is_covered() {
    // The edge from (0.5, 0.5) to (3.5, 0.5) runs through three centers.
    let mut fb = Framebuffer::new(4, 4);
    fill_triangle(
        &screen(0.5, 0.5, 0.25, Color::white()),
        &screen(0.5, 3.5, 0.25, Color::white()),
        &screen(3.5, 0.5, 0.25, Color::white()),
        &Uniforms::new(),
        &mut fb,
        &flat,
        &still,
    );
    let w = 0xffffffu32;
    assert_eq!(
        fb.buffer,
        vec![w, w, w, w, w, w, w, 0, w, w, 0, 0, w, 0, 0, 0]
    );
}

#[test]
fn degenerate_triangle_draws_nothing() {
    let mut fb = Framebuffer::new(8, 8);
    fb.clear();
    let colors = fb.buffer.clone();
    let depths = fb.depth_buffer.clone();
    // Three points on one line.
    fill_triangle(
        &screen(1.0, 1.0, 0.1, Color::white()),
        &screen(3.0, 3.0, 0.1, Color::white()),
        &screen(6.5, 6.5, 0.1, Color::white()),
        &Uniforms::new(),
        &mut fb,
        &flat,
        &still,
    );
    assert_eq!(fb.buffer, colors);
    assert_eq!(fb.depth_buffer, depths);
    triangle(
        &Vertex2D::new(fx(1.0), fx(1.0), Color::white()),
        &Vertex2D::new(fx(3.0), fx(3.0), Color::white()),
        &Vertex2D::new(fx(6.5), fx(6.5), Color::white()),
        &mut fb,
    );
    assert_eq!(fb.buffer, colors);
}

#[test]
fn sliver_under_the_area_threshold_draws_nothing() {
    // A sliver around the center of pixel (0, 0): its cross product is
    // base * height = 1 * 2/65536, about 0.00003 and under the threshold.
    let mut fb = Framebuffer::new(4, 4);
    fill_triangle(
        &ScreenVertex { point: Vertex2D::new(0, HALF, Color::white()), depth: 0, normal: Vec3::new(0, 0, -ONE) },
        &ScreenVertex { point: Vertex2D::new(ONE, HALF + 1, Color::white()), depth: 0, normal: Vec3::new(0, 0, -ONE) },
        &ScreenVertex { point: Vertex2D::new(ONE, HALF - 1, Color::white()), depth: 0, normal: Vec3::new(0, 0, -ONE) },
        &Uniforms::new(),
        &mut fb,
        &flat,
        &still,
    );
    assert_eq!(fb.buffer, vec![0u32; 16]);
}

#[test]
fn triangle_off_screen_draws_nothing() {
    let mut fb = Framebuffer::new(4, 4);
    for (dx, dy) in [(-10.0, 0.0), (10.0, 0.0), (0.0, -10.0), (0.0, 10.0)] {
        fill_triangle(
            &screen(0.0 + dx, 0.0 + dy, 0.25, Color::white()),
            &screen(0.0 + dx, 4.0 + dy, 0.25, Color::white()),
            &screen(4.0 + dx, 0.0 + dy, 0.25, Color::white()),
            &Uniforms::new(),
            &mut fb,
            &flat,
        &still,
        );
    }
    assert_eq!(fb.buffer, vec![0u32; 16]);
}

#[test]
fn triangle_larger_than_the_screen_fills_it() {
    let mut fb = Framebuffer::new(5, 3);
    fill_triangle(
        &screen(-100.0, -100.0, 0.25, Color::white()),
        &screen(-100.0, 300.0, 0.25, Color::white()),
        &screen(300.0, -100.0, 0.25, Color::white()),
        &Uniforms::new(),
        &mut fb,
        &flat,
        &still,
    );
    assert_eq!(fb.buffer, vec![0xffffffu32; 15]);
}

#[test]
fn depth_is_interpolated_and_tested() {
    // Depth grows with x: 0 at x = 0, 1 at x = 4.
    let mut fb = Framebuffer::new(4, 1);
    fb.clear();
    fb.point_with_depth(0, 0, fx(0.05), &Color::red());
    fb.point_with_depth(3, 0, fx(0.9), &Color::red());
    fill_triangle(
        &screen(0.0, -4.0, 0.0, Color::white()),
        &screen(0.0, 4.0, 0.0, Color::white()),
        &screen(8.0, 0.0, 2.0, Color::white()),
        &Uniforms::new(),
        &mut fb,
        &flat,
        &still,
    );
    // Centers at x = 0.5, 1.5, 2.5, 3.5 have depth x / 4.
    assert_eq!(fb.buffer, vec![0xff0000, 0xffffff, 0xffffff, 0xffffff]);
    assert_eq!(fb.depth_buffer, vec![fx(0.05), fx(0.375), fx(0.625), fx(0.875)]);
}

#[test]
fn nearer_triangle_wins_in_either_order() {
    let near = [
        screen(0.0, 0.0, 0.25, Color::red()),
        screen(0.0, 8.0, 0.25, Color::red()),
        screen(8.0, 0.0, 0.25, Color::red()),
    ];
    let far = [
        screen(0.0, 0.0, 0.75, Color::green()),
        screen(0.0, 8.0, 0.75, Color::green()),
        screen(8.0, 0.0, 0.75, Color::green()),
    ];
    let mut a = Framebuffer::new(4, 4);
    a.clear();
    fill_triangle(&near[0], &near[1], &near[2], &Uniforms::new(), &mut a, &flat, &still);
    fill_triangle(&far[0], &far[1], &far[2], &Uniforms::new(), &mut a, &flat, &still);
    let mut b = Framebuffer::new(4, 4);
    b.clear();
    fill_triangle(&far[0], &far[1], &far[2], &Uniforms::new(), &mut b, &flat, &still);
    fill_triangle(&near[0], &near[1], &near[2], &Uniforms::new(), &mut b, &flat, &still);
    assert_eq!(a.buffer, b.buffer);
    assert_eq!(a.depth_buffer, b.depth_buffer);
    assert_eq!(a.buffer, vec![0xff0000u32; 16]);
}

#[test]
fn colors_are_interpolated_and_truncated() {
    // Red grows with x from 0 at x = 0 to 255 at x = 4: at the centers it is
    // 31.875, 95.625, 159.375, 223.125, cut to whole numbers.
    let mut fb = Framebuffer::new(4, 1);
    triangle(
        &Vertex2D::new(fx(0.0), fx(-4.0), Color::new(0, 0, 0)),
        &Vertex2D::new(fx(0.0), fx(4.0), Color::new(0, 0, 0)),
        &Vertex2D::new(fx(8.0), fx(0.0), Color::new(255, 255, 0)),
        &mut fb,
    );
    assert_eq!(
        fb.buffer,
        vec![
            Color::new(15, 15, 0).to_hex(),
            Color::new(47, 47, 0).to_hex(),
            Color::new(79, 79, 0).to_hex(),
            Color::new(111, 111, 0).to_hex()
        ]
    );
    assert_eq!(fb.depth_buffer, vec![ONE; 4]);
}

#[test]
fn flat_triangle_of_negative_winding_is_not_drawn() {
    let mut fb = Framebuffer::new(4, 4);
    triangle(
        &Vertex2D::new(fx(0.0), fx(0.0), Color::white()),
        &Vertex2D::new(fx(4.0), fx(0.0), Color::white()),
        &Vertex2D::new(fx(0.0), fx(4.0), Color::white()),
        &mut fb,
    );
    assert_eq!(fb.buffer, vec![0u32; 16]);
    triangle(
        &Vertex2D::new(fx(0.0), fx(0.0), Color::white()),
        &Vertex2D::new(fx(0.0), fx(4.0), Color::white()),
        &Vertex2D::new(fx(4.0), fx(0.0), Color::white()),
        &mut fb,
    );
    let w = 0xffffffu32;
    assert_eq!(
        fb.buffer,
        vec![w, w, w, w, w, w, w, 0, w, w, 0, 0, w, 0, 0, 0]
    );
}

#[test]
fn vertex_stage_with_identity_matrices_keeps_the_vertex() {
    let v = Vertex::new(
        Vec3::new(fx(1.5), fx(-2.25), fx(0.125)),
        Vec3::new(0, ONE, 0),
        Color::red(),
    );
    let out = vertex_shader(&v, &Uniforms::new());
    assert_eq!(
        out.transformed_position,
        Vec4::new(fx(1.5), fx(-2.25), fx(0.125), ONE)
    );
    assert_eq!(out.transformed_normal, Vec3::new(0, ONE, 0));
    assert_eq!(out.position, v.position);
    assert_eq!(out.normal, v.normal);
    assert_eq!(out.color, v.color);
}

#[test]
fn vertex_stage_applies_projection_view_model_in_that_order() {
    let mut u = Uniforms::new();
    // Model: scale by 2. View: move by (1, 0, 0). Projection: w = z.
    u.model_matrix = Mat4 {
        r0: Vec4::new(2 * ONE, 0, 0, 0),
        r1: Vec4::new(0, 2 * ONE, 0, 0),
        r2: Vec4::new(0, 0, 2 * ONE, 0),
        r3: Vec4::new(0, 0, 0, ONE),
    };
    u.view_matrix = Mat4 {
        r0: Vec4::new(ONE, 0, 0, ONE),
        r1: Vec4::new(0, ONE, 0, 0),
        r2: Vec4::new(0, 0, ONE, 0),
        r3: Vec4::new(0, 0, 0, ONE),
    };
    u.projection_matrix = Mat4 {
        r0: Vec4::new(ONE, 0, 0, 0),
        r1: Vec4::new(0, ONE, 0, 0),
        r2: Vec4::new(0, 0, ONE, 0),
        r3: Vec4::new(0, 0, ONE, 0),
    };
    let v = Vertex::new(Vec3::new(ONE, 2 * ONE, 3 * ONE), Vec3::new(0, 0, 5 * ONE), Color::red());
    let out = vertex_shader(&v, &u);
    assert_eq!(
        out.transformed_position,
        Vec4::new(3 * ONE, 4 * ONE, 6 * ONE, 6 * ONE)
    );
    // The normal is turned by the model matrix only and comes back with length one.
    assert_eq!(out.transformed_normal, Vec3::new(0, 0, ONE));
}

#[test]
fn normal_is_turned_by_the_upper_left_block() {
    let mut u = Uniforms::new();
    // A quarter turn about z that takes x to y, with a shift that
    // must not reach the normal.
    u.model_matrix = Mat4 {
        r0: Vec4::new(0, -ONE, 0, 7 * ONE),
        r1: Vec4::new(ONE, 0, 0, 8 * ONE),
        r2: Vec4::new(0, 0, ONE, 9 * ONE),
        r3: Vec4::new(0, 0, 0, ONE),
    };
    let v = Vertex::new(Vec3::new(0, 0, 0), Vec3::new(ONE, 0, 0), Color::red());
    assert_eq!(vertex_shader(&v, &u).transformed_normal, Vec3::new(0, ONE, 0));
}

#[test]
fn viewport_matrix_follows_the_convention() {
    let m = create_viewport_matrix(800 * ONE, 600 * ONE);
    assert_eq!(
        m,
        Mat4 {
            r0: Vec4::new(400 * ONE, 0, 0, 400 * ONE),
            r1: Vec4::new(0, -300 * ONE, 0, 300 * ONE),
            r2: Vec4::new(0, 0, ONE, 0),
            r3: Vec4::new(0, 0, 0, ONE),
        }
    );
    // NDC (-1, 1) is the top left corner and (1, -1) the bottom right.
    assert_eq!(
        m.transform(&Vec4::new(-ONE, ONE, HALF, ONE)),
        Vec4::new(0, 0, HALF, ONE)
    );
    assert_eq!(
        m.transform(&Vec4::new(ONE, -ONE, HALF, ONE)),
        Vec4::new(800 * ONE, 600 * ONE, HALF, ONE)
    );
    assert_eq!(
        m.transform(&Vec4::new(0, 0, 0, ONE)),
        Vec4::new(400 * ONE, 300 * ONE, 0, ONE)
    );
}

#[test]
fn projection_divides_by_w_and_maps_to_the_screen() {
    let viewport = create_viewport_matrix(8 * ONE, 4 * ONE);
    let mut v = Vertex::new(Vec3::new(0, 0, 0), Vec3::new(0, 0, -ONE), Color::cyan());
    v.transformed_position = Vec4::new(ONE, -ONE, ONE, 2 * ONE);
    let s = project(&v, &viewport).unwrap();
    // NDC (0.5, -0.5, 0.5) lands at (6, 3).
    assert_eq!(s.point.x, 6 * ONE);
    assert_eq!(s.point.y, 3 * ONE);
    assert_eq!(s.depth, HALF);
    assert_eq!(s.point.color, Color::cyan());
    assert_eq!(s.normal, Vec3::new(0, 0, -ONE));
}

#[test]
fn vertex_with_zero_w_has_no_place_on_the_screen() {
    let viewport = create_viewport_matrix(8 * ONE, 4 * ONE);
    let mut v = Vertex::new(Vec3::new(0, 0, 0), Vec3::new(0, 0, -ONE), Color::cyan());
    v.transformed_position = Vec4::new(ONE, -ONE, ONE, 0);
    assert!(project(&v, &viewport).is_none());
}

#[test]
fn triangle_with_a_vertex_at_zero_w_draws_nothing() {
    let mut u = Uniforms::new();
    u.viewport_matrix = create_viewport_matrix(8 * ONE, 8 * ONE);
    // w = z, and one vertex has z = 0.
    u.projection_matrix = Mat4 {
        r0: Vec4::new(ONE, 0, 0, 0),
        r1: Vec4::new(0, ONE, 0, 0),
        r2: Vec4::new(0, 0, ONE, 0),
        r3: Vec4::new(0, 0, ONE, 0),
    };
    let n = Vec3::new(0, 0, -ONE);
    let mut fb = Framebuffer::new(8, 8);
    fb.clear();
    let before = fb.buffer.clone();
    triangle_3d(
        &Vertex::new(Vec3::new(-ONE, -ONE, ONE), n, Color::white()),
        &Vertex::new(Vec3::new(ONE, -ONE, 0), n, Color::white()),
        &Vertex::new(Vec3::new(0, ONE, ONE), n, Color::white()),
        &u,
        &mut fb,
        &flat,
        &still,
    );
    assert_eq!(fb.buffer, before);
}

#[test]
fn triangle_3d_draws_through_the_whole_pipeline() {
    let mut u = Uniforms::new();
    u.viewport_matrix = create_viewport_matrix(4 * ONE, 4 * ONE);
    let n = Vec3::new(0, 0, -ONE);
    let mut fb = Framebuffer::new(4, 4);
    fb.clear();
    let bg = fb.buffer[0];
    // In NDC: (-1, 1), (-1, -1), (1, 1), which is the screen's (0, 0),
    // (0, 4), (4, 0), at depth 0.5 and facing the light.
    triangle_3d(
        &Vertex::new(Vec3::new(-ONE, ONE, HALF), n, Color::new(200, 100, 50)),
        &Vertex::new(Vec3::new(-ONE, -ONE, HALF), n, Color::new(200, 100, 50)),
        &Vertex::new(Vec3::new(ONE, ONE, HALF), n, Color::new(200, 100, 50)),
        &u,
        &mut fb,
        &flat,
        &still,
    );
    let c = Color::new(200, 100, 50).to_hex();
    assert_eq!(
        fb.buffer,
        vec![c, c, c, c, c, c, c, bg, c, c, bg, bg, c, bg, bg, bg]
    );
    assert_eq!(fb.depth_buffer[0], HALF);
    assert_eq!(fb.depth_buffer[15], ONE);
}

#[test]
fn triangle_3d_accepts_both_windings() {
    let mut u = Uniforms::new();
    u.viewport_matrix = create_viewport_matrix(4 * ONE, 4 * ONE);
    let n = Vec3::new(0, 0, -ONE);
    let a = Vertex::new(Vec3::new(-ONE, ONE, HALF), n, Color::white());
    let b = Vertex::new(Vec3::new(-ONE, -ONE, HALF), n, Color::white());
    let c = Vertex::new(Vec3::new(ONE, ONE, HALF), n, Color::white());
    let mut one = Framebuffer::new(4, 4);
    one.clear();
    triangle_3d(&a, &b, &c, &u, &mut one, &flat, &still);
    let mut other = Framebuffer::new(4, 4);
    other.clear();
    triangle_3d(&a, &c, &b, &u, &mut other, &flat, &still);
    assert_eq!(one.buffer, other.buffer);
    assert_eq!(one.depth_buffer, other.depth_buffer);
}

#[test]
fn selected_shader_is_fed_with_what_it_asks_for() {
    let mut u = Uniforms::new();
    u.planet_shader = Some(PlanetShader::Rocky);
    let a = screen(-10.0, -10.0, 0.5, Color::white());
    let b = screen(-10.0, 30.0, 0.5, Color::white());
    let c = screen(30.0, -10.0, 0.5, Color::white());
    // With these sines and cosines the grain is one: land.
    let mut fb = Framebuffer::new(2, 1);
    fb.clear();
    let asked = std::cell::RefCell::new(Vec::new());
    let high = |angle: Fixed| {
        asked.borrow_mut().push(angle);
        Angle { sin: ONE, cos: ONE }
    };
    fill_triangle(&a, &b, &c, &u, &mut fb, &high, &still);
    assert_eq!(fb.buffer, vec![Color::new(0, 200, 100).to_hex(); 2]);
    // The normal is (0, 0, -1): asked were the angles 50 * 0, 50 * 0 and
    // 50 * -1, once for each of the two pixels.
    assert_eq!(*asked.borrow(), vec![0, 0, -50 * ONE, 0, 0, -50 * ONE]);
    // With a flat sine the grain is zero: ocean.
    let mut fb = Framebuffer::new(2, 1);
    fb.clear();
    fill_triangle(&a, &b, &c, &u, &mut fb, &flat, &still);
    assert_eq!(fb.buffer, vec![Color::cyan().to_hex(); 2]);
}

#[test]
fn default_shader_asks_for_nothing() {
    let asked = std::cell::Cell::new(0);
    let trig = |_a: Fixed| {
        asked.set(asked.get() + 1);
        Angle { sin: ONE, cos: ONE }
    };
    let noise = |_x: Fixed, _y: Fixed, _z: Fixed| {
        asked.set(asked.get() + 1);
        ONE
    };
    let mut fb = Framebuffer::new(4, 4);
    fb.clear();
    fill_triangle(
        &screen(-10.0, -10.0, 0.5, Color::white()),
        &screen(-10.0, 30.0, 0.5, Color::white()),
        &screen(30.0, -10.0, 0.5, Color::white()),
        &Uniforms::new(),
        &mut fb,
        &trig,
        &noise,
    );
    assert_eq!(fb.buffer, vec![0xffffffu32; 16]);
    assert_eq!(asked.get(), 0);
}

#[test]
fn fragment_carries_position_depth_and_unit_normal() {
    let mut a = screen(-10.0, -10.0, 0.5, Color::new(10, 20, 30));
    let mut b = screen(-10.0, 30.0, 0.5, Color::new(10, 20, 30));
    let mut c = screen(30.0, -10.0, 0.5, Color::new(10, 20, 30));
    // Normals that are too long: the fragment's comes back with length one.
    a.normal = Vec3::new(0, 3 * ONE, 0);
    b.normal = Vec3::new(0, 3 * ONE, 0);
    c.normal = Vec3::new(0, 3 * ONE, 0);
    let seen = fragments(&a, &b, &c, 2, 2);
    assert_eq!(seen.len(), 4);
    let places: Vec<(usize, usize)> = seen.iter().map(|f| f.position).collect();
    assert_eq!(places, vec![(0, 0), (1, 0), (0, 1), (1, 1)]);
    for f in seen.iter() {
        assert_eq!(f.depth, HALF);
        assert_eq!(f.color, Color::new(10, 20, 30));
        assert_eq!(f.normal, Vec3::new(0, ONE, 0));
        assert_eq!(f.intensity, ONE);
    }
}

#[test]
fn there_is_no_fragment_outside_the_triangle_or_far_off() {
    let a = screen(0.0, 0.0, 0.5, Color::white());
    let b = screen(0.0, 4.0, 0.5, Color::white());
    let c = screen(4.0, 0.0, 0.5, Color::white());
    assert!(fragment_of(&a, &b, &c, 0, 0).is_some());
    assert!(fragment_of(&a, &b, &c, 3, 3).is_none());
    assert!(fragment_of(&a, &b, &c, 4, 0).is_none());
    assert!(fragment_of(&a, &b, &c, 40000, 0).is_none());
    assert!(fragment_of(&a, &b, &c, usize::MAX, usize::MAX).is_none());
    // A degenerate triangle has none at all.
    assert!(fragment_of(&a, &a, &c, 0, 0).is_none());
}

#[test]
fn default_shading_is_used_without_a_selector() {
    let mut f = Fragment::new(0, 0, 0);
    f.color = Color::new(200, 100, 50);
    f.normal = Vec3::new(0, 0, -ONE);
    assert_eq!(
        fragment_shader(&f, &Uniforms::new(), &flat, &still),
        Color::new(200, 100, 50)
    );
}

#[test]
fn constant_attributes_stay_constant_across_a_triangle() {
    // The barycentric weights add up to one, so a value that all three
    // vertices share comes out unchanged at every covered pixel.
    let mut a = screen(1.3, 2.9, 0.123, Color::new(17, 180, 255));
    let mut b = screen(3.1, 14.2, 0.123, Color::new(17, 180, 255));
    let mut c = screen(15.7, 6.4, 0.123, Color::new(17, 180, 255));
    a.normal = Vec3::new(0, ONE, 0);
    b.normal = Vec3::new(0, ONE, 0);
    c.normal = Vec3::new(0, ONE, 0);
    let seen = fragments(&a, &b, &c, 16, 16);
    assert!(seen.len() > 50);
    for f in seen.iter() {
        assert_eq!(f.depth, fx(0.123));
        assert_eq!(f.color, Color::new(17, 180, 255));
        assert_eq!(f.normal, Vec3::new(0, ONE, 0));
    }
}

#[test]
fn interpolated_values_stay_between_the_vertex_values() {
    let seen = fragments(
        &screen(1.3, 2.9, 0.25, Color::new(10, 200, 0)),
        &screen(3.1, 14.2, 0.5, Color::new(20, 100, 255)),
        &screen(15.7, 6.4, 0.75, Color::new(30, 0, 128)),
        16,
        16,
    );
    assert!(seen.len() > 50);
    for f in seen.iter() {
        assert!((fx(0.25)..=fx(0.75)).contains(&f.depth));
        assert!((10..=30).contains(&f.color.r));
        assert!(f.color.g <= 200);
    }
}

#[test]
fn fragments_are_what_the_draw_call_writes() {
    let a = screen(1.3, 2.9, 0.25, Color::new(10, 200, 0));
    let b = screen(3.1, 14.2, 0.5, Color::new(20, 100, 255));
    let c = screen(15.7, 6.4, 0.75, Color::new(30, 0, 128));
    let mut fb = Framebuffer::new(16, 16);
    fb.clear();
    let bg = fb.buffer[0];
    fill_triangle(&a, &b, &c, &Uniforms::new(), &mut fb, &flat, &still);
    for y in 0..16 {
        for x in 0..16 {
            match fragment_of(&a, &b, &c, x, y) {
                Some(f) => {
                    let color = fragment_shader(&f, &Uniforms::new(), &flat, &still);
                    assert_eq!(fb.buffer[y * 16 + x], color.to_hex());
                    assert_eq!(fb.depth_buffer[y * 16 + x], f.depth);
                }
                None => {
                    assert_eq!(fb.buffer[y * 16 + x], bg);
                    assert_eq!(fb.depth_buffer[y * 16 + x], ONE);
                }
            }
        }
    }
}

#[test]
fn edge_function_is_the_cross_product() {
    let p = |x: i32, y: i32| Vertex2D::new(x, y, Color::black());
    // (c - a) x (b - a) for a = (0, 0), b = (0, 4), c = (2, 0): 2 * 4 - 0.
    assert_eq!(edge_function(&p(0, 0), &p(0, 4), &p(2, 0)), 8);
    assert_eq!(edge_function(&p(0, 0), &p(2, 0), &p(0, 4)), -8);
    assert_eq!(
        edge_function(&p(0, 0), &p(0, 4 * ONE), &p(2 * ONE, 0)),
        8 * (ONE as i128) * (ONE as i128)
    );
    // A point on the line gives zero.
    assert_eq!(edge_function(&p(1, 1), &p(5, 5), &p(-3, -3)), 0);
    // The three edge values of a point add up to the area.
    let (a, b, c, q) = (p(-7, 3), p(12, 40), p(33, -9), p(5, 6));
    assert_eq!(
        edge_function(&b, &c, &q) + edge_function(&c, &a, &q) + edge_function(&a, &b, &q),
        edge_function(&a, &b, &c)
    );
    // Nothing overflows at the ends of the range.
    let (lo, hi) = (i32::MIN, i32::MAX);
    let span = hi as i128 - lo as i128;
    assert_eq!(edge_function(&p(lo, lo), &p(lo, hi), &p(hi, lo)), span * span);
    assert_eq!(edge_function(&p(lo, lo), &p(hi, lo), &p(lo, hi)), -span * span);
}
