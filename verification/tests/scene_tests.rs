use soft_renderer::celestial::planet::PlanetShader;
use soft_renderer::color::Color;
use soft_renderer::fixed::{Fixed, ONE};
use soft_renderer::fragment::Fragment;
use soft_renderer::framebuffer::Framebuffer;
use soft_renderer::geometry::sphere::create_sphere;
use soft_renderer::pipeline::{draw_mesh, fragment_of, project};
use soft_renderer::shaders::fragment_shader::fragment_shader;
use soft_renderer::shaders::vertex_shader::vertex_shader;
use soft_renderer::uniforms::{create_viewport_matrix, Uniforms};
use soft_renderer::vector::{Angle, Mat4, Vec4};

fn fx(v: f32) -> Fixed {
    (v as f64 * 65536.0).round() as Fixed
}

fn matrix(m: &nalgebra_glm::Mat4) -> Mat4 {
    let row = |r: usize| Vec4::new(fx(m[(r, 0)]), fx(m[(r, 1)]), fx(m[(r, 2)]), fx(m[(r, 3)]));
    Mat4 { r0: row(0), r1: row(1), r2: row(2), r3: row(3) }
}

fn trig(angle: Fixed) -> Angle {
    let a = angle as f64 / 65536.0;
    Angle { sin: fx(a.sin() as f32), cos: fx(a.cos() as f32) }
}

/// A unit sphere at the origin, seen from (0, 0, -5).
fn scene() -> (Uniforms, soft_renderer::geometry::mesh::Mesh) {
    let mut u = Uniforms::new();
    u.view_matrix = matrix(&nalgebra_glm::look_at(
        &nalgebra_glm::vec3(0.0, 0.0, -5.0),
        &nalgebra_glm::vec3(0.0, 0.0, 0.0),
        &nalgebra_glm::vec3(0.0, 1.0, 0.0),
    ));
    u.projection_matrix = matrix(&nalgebra_glm::perspective(
        1.0,
        45.0 * std::f32::consts::PI / 180.0,
        0.1,
        100.0,
    ));
    u.viewport_matrix = create_viewport_matrix(64 * ONE, 64 * ONE);
    let mesh = create_sphere(ONE, 32, 32, &trig);
    (u, mesh)
}

fn flat(_angle: Fixed) -> Angle {
    Angle { sin: 0, cos: ONE }
}

fn still(_x: Fixed, _y: Fixed, _z: Fixed) -> Fixed {
    0
}

/// The picture of the mesh, and every fragment that went into it.
fn render(u: &Uniforms, mesh: &soft_renderer::geometry::mesh::Mesh) -> (Framebuffer, Vec<Fragment>) {
    let mut fb = Framebuffer::new(64, 64);
    fb.clear();
    draw_mesh(mesh, u, &mut fb, &flat, &still);
    let mut seen = Vec::new();
    for t in mesh.vertices.chunks_exact(3) {
        let corners: Vec<_> = t
            .iter()
            .map(|v| project(&vertex_shader(v, u), &u.viewport_matrix).unwrap())
            .collect();
        for y in 0..64 {
            for x in 0..64 {
                if let Some(f) = fragment_of(&corners[0], &corners[1], &corners[2], x, y) {
                    seen.push(f);
                }
            }
        }
    }
    (fb, seen)
}

#[test]
fn sphere_is_fully_lit_where_it_is_nearest_the_camera() {
    let (u, mesh) = scene();
    let (fb, seen) = render(&u, &mesh);
    let nearest = seen.iter().min_by_key(|f| f.depth).unwrap();
    // Its normal is close to (0, 0, -1) ...
    assert!(nearest.normal.z < -ONE + ONE / 50, "normal {:?}", nearest.normal);
    // ... so it keeps its color, up to what the normal is off by.
    let c = fragment_shader(nearest, &u, &flat, &still);
    assert!(c.r >= 250 && c.g >= 250 && c.b >= 250, "color {c:?}");
    // It is what the framebuffer shows there.
    let (x, y) = nearest.position;
    assert_eq!(fb.buffer[y * 64 + x], c.to_hex());
    assert_eq!(fb.depth_buffer[y * 64 + x], nearest.depth);
    // The sphere is in the middle of the screen.
    assert!((28..36).contains(&x) && (28..36).contains(&y));
}

#[test]
fn sphere_gets_ambient_light_only_where_it_faces_away() {
    let (u, mesh) = scene();
    let (_fb, seen) = render(&u, &mesh);
    let farthest = seen.iter().max_by_key(|f| f.depth).unwrap();
    assert!(farthest.normal.z > ONE - ONE / 50, "normal {:?}", farthest.normal);
    // 0.3 of white, cut to whole numbers.
    assert_eq!(
        fragment_shader(farthest, &u, &flat, &still),
        Color::new(76, 76, 76)
    );
    // A planet surface has 0.2 of ambient light: 0.3 + 0.7 * 0.2 = 0.44 of
    // the ocean's cyan.
    let mut planet = u;
    planet.planet_shader = Some(PlanetShader::Rocky);
    assert_eq!(
        fragment_shader(farthest, &planet, &flat, &still),
        Color::new(0, 112, 112)
    );
}

#[test]
fn hidden_side_of_the_sphere_loses_the_depth_test() {
    let (u, mesh) = scene();
    let (fb, seen) = render(&u, &mesh);
    for f in &seen {
        let (x, y) = f.position;
        assert!(fb.depth_buffer[y * 64 + x] <= f.depth);
    }
    // Every pixel that was written shows a surface that faces the camera.
    let bg = Color::dark_bg().to_hex();
    let mut lit = 0;
    for y in 0..64 {
        for x in 0..64 {
            if fb.buffer[y * 64 + x] != bg {
                let shown = seen
                    .iter()
                    .filter(|f| f.position == (x, y))
                    .min_by_key(|f| f.depth)
                    .unwrap();
                assert!(shown.normal.z <= ONE / 10, "normal {:?} at ({x}, {y})", shown.normal);
                lit += 1;
            }
        }
    }
    // The disc has a radius of about 16 pixels.
    assert!((500..1100).contains(&lit), "{lit} pixels");
}

#[test]
fn drawing_the_sphere_twice_changes_nothing() {
    let (u, mesh) = scene();
    let (mut fb, _) = render(&u, &mesh);
    let colors = fb.buffer.clone();
    let depths = fb.depth_buffer.clone();
    draw_mesh(&mesh, &u, &mut fb, &flat, &still);
    assert_eq!(fb.buffer, colors);
    assert_eq!(fb.depth_buffer, depths);
}

/// The pipeline in floating point: vertex stage, rasterizer and default
/// lighting, with the same conventions.
fn float_render(
    view: &nalgebra_glm::Mat4,
    projection: &nalgebra_glm::Mat4,
    mesh: &soft_renderer::geometry::mesh::Mesh,
    background: u32,
) -> (Vec<u32>, Vec<f32>) {
    let (w, h) = (64usize, 64usize);
    let mut colors = vec![background; w * h];
    let mut depths = vec![1.0f32; w * h];
    let f = |v: Fixed| v as f32 / 65536.0;
    let shade = |p: &soft_renderer::vector::Vec3| {
        let clip = projection * view * nalgebra_glm::vec4(f(p.x), f(p.y), f(p.z), 1.0);
        let ndc = clip / clip.w;
        (ndc.x / 2.0 * w as f32 + w as f32 / 2.0, -ndc.y / 2.0 * h as f32 + h as f32 / 2.0, ndc.z)
    };
    let edge = |a: (f32, f32), b: (f32, f32), c: (f32, f32)| {
        (c.0 - a.0) * (b.1 - a.1) - (c.1 - a.1) * (b.0 - a.0)
    };
    for t in mesh.vertices.chunks_exact(3) {
        let s: Vec<(f32, f32, f32)> = t.iter().map(|v| shade(&v.position)).collect();
        let n: Vec<nalgebra_glm::Vec3> = t
            .iter()
            .map(|v| nalgebra_glm::vec3(f(v.normal.x), f(v.normal.y), f(v.normal.z)))
            .collect();
        let p = [(s[0].0, s[0].1), (s[1].0, s[1].1), (s[2].0, s[2].1)];
        let area = edge(p[0], p[1], p[2]);
        if area.abs() < 0.0001 {
            continue;
        }
        for y in 0..h {
            for x in 0..w {
                let c = (x as f32 + 0.5, y as f32 + 0.5);
                let ws = [edge(p[1], p[2], c), edge(p[2], p[0], c), edge(p[0], p[1], c)];
                let inside = if area > 0.0 {
                    ws.iter().all(|v| *v >= 0.0)
                } else {
                    ws.iter().all(|v| *v <= 0.0)
                };
                if !inside {
                    continue;
                }
                let b = [ws[0] / area, ws[1] / area, ws[2] / area];
                let depth = s[0].2 * b[0] + s[1].2 * b[1] + s[2].2 * b[2];
                let normal = (n[0] * b[0] + n[1] * b[1] + n[2] * b[2]).normalize();
                let intensity = normal.dot(&nalgebra_glm::vec3(0.0, 0.0, -1.0)).max(0.0);
                let light = (0.3 + 0.7 * intensity).min(1.0);
                let channel = (255.0 * light) as u32;
                if depth < depths[y * w + x] {
                    depths[y * w + x] = depth;
                    colors[y * w + x] = channel << 16 | channel << 8 | channel;
                }
            }
        }
    }
    (colors, depths)
}

#[test]
fn fixed_point_picture_agrees_with_floating_point() {
    let view = nalgebra_glm::look_at(
        &nalgebra_glm::vec3(0.0, 0.0, -5.0),
        &nalgebra_glm::vec3(0.0, 0.0, 0.0),
        &nalgebra_glm::vec3(0.0, 1.0, 0.0),
    );
    let projection =
        nalgebra_glm::perspective(1.0, 45.0 * std::f32::consts::PI / 180.0, 0.1, 100.0);
    let (u, mesh) = scene();
    let (fb, _) = render(&u, &mesh);
    let bg = Color::dark_bg().to_hex();
    let (colors, depths) = float_render(&view, &projection, &mesh, bg);
    let mut covered = 0;
    let mut coverage_differs = 0;
    let mut worst_channel = 0;
    let mut worst_depth = 0.0f32;
    for i in 0..64 * 64 {
        let a = fb.buffer[i];
        let b = colors[i];
        if (a == bg) != (b == bg) {
            coverage_differs += 1;
            continue;
        }
        if a != bg {
            covered += 1;
            let d = ((a & 0xff) as i32 - (b & 0xff) as i32).abs();
            worst_channel = worst_channel.max(d);
            let dz = (fb.depth_buffer[i] as f32 / 65536.0 - depths[i]).abs();
            worst_depth = worst_depth.max(dz);
        }
    }
    assert!(covered > 500, "{covered} pixels covered");
    // Only pixels whose centers are next to the outline may differ.
    assert!(coverage_differs <= 8, "{coverage_differs} pixels differ in coverage");
    assert!(worst_channel <= 3, "channels differ by {worst_channel}");
    assert!(worst_depth < 0.001, "depths differ by {worst_depth}");
}
