use soft_renderer::color::Color;
use soft_renderer::fixed::{Fixed, HALF, ONE};
use soft_renderer::framebuffer::Framebuffer;
use soft_renderer::geometry::cube::create_cube;
use soft_renderer::geometry::mesh::Mesh;
use soft_renderer::geometry::obj_loader::{
    build_mesh, face_vertex, line_kind, parse_corner, parse_index, triangulate, FaceCorner, LineKind,
    ObjRecord,
};
use soft_renderer::geometry::sphere::{create_sphere, sphere_from_angles};
use soft_renderer::pipeline::{draw_mesh, triangle_3d};
use soft_renderer::uniforms::{create_viewport_matrix, Uniforms};
use soft_renderer::vector::{Angle, Vec2, Vec3, Vec4};
use soft_renderer::vertex::Vertex;

fn fx(v: f64) -> Fixed {
    (v * 65536.0).round() as Fixed
}

fn flat(_angle: Fixed) -> Angle {
    Angle { sin: 0, cos: ONE }
}

fn still(_x: Fixed, _y: Fixed, _z: Fixed) -> Fixed {
    0
}

fn angles(count: u32, full: f64) -> Vec<Angle> {
    (0..=count)
        .map(|i| {
            let a = i as f64 * full / count as f64;
            Angle { sin: fx(a.sin()), cos: fx(a.cos()) }
        })
        .collect()
}

fn vertex(x: i32) -> Vertex {
    Vertex::new(Vec3::new(x * ONE, 0, 0), Vec3::new(0, 0, ONE), Color::white())
}

#[test]
fn cube_has_six_faces_of_two_triangles() {
    let cube = create_cube();
    assert_eq!(cube.len(), 36);
    let faces = [
        (Vec3::new(0, 0, -ONE), Color::magenta()),
        (Vec3::new(0, 0, ONE), Color::cyan()),
        (Vec3::new(-ONE, 0, 0), Color::neon_yellow()),
        (Vec3::new(ONE, 0, 0), Color::purple()),
        (Vec3::new(0, -ONE, 0), Color::red()),
        (Vec3::new(0, ONE, 0), Color::green()),
    ];
    for (f, (normal, color)) in faces.iter().enumerate() {
        for v in &cube[6 * f..6 * f + 6] {
            assert_eq!(v.normal, *normal);
            assert_eq!(v.transformed_normal, *normal);
            assert_eq!(v.color, *color);
            assert_eq!(v.tex_coords, Vec2::new(0, 0));
            for c in [v.position.x, v.position.y, v.position.z] {
                assert!(c == ONE || c == -ONE);
            }
            // The vertex lies on the face that its normal points out of.
            assert_eq!(v.position.dot(normal), ONE);
        }
    }
}

#[test]
fn cube_starts_as_the_back_face() {
    let cube = create_cube();
    let expected = [
        (-1, -1, -1),
        (1, -1, -1),
        (1, 1, -1),
        (1, 1, -1),
        (-1, 1, -1),
        (-1, -1, -1),
    ];
    for (v, (x, y, z)) in cube.iter().zip(expected) {
        assert_eq!(v.position, Vec3::new(x * ONE, y * ONE, z * ONE));
    }
    assert_eq!(cube[35].position, Vec3::new(-ONE, ONE, -ONE));
    assert_eq!(cube[6].position, Vec3::new(-ONE, -ONE, ONE));
    assert_eq!(cube[7].position, Vec3::new(ONE, ONE, ONE));
}

#[test]
fn sphere_has_six_vertices_per_cell() {
    let mesh = sphere_from_angles(ONE, &angles(8, std::f64::consts::PI), &angles(12, std::f64::consts::TAU));
    assert_eq!(mesh.vertices.len(), 6 * 12 * 8);
    for v in &mesh.vertices {
        assert_eq!(v.color, Color::white());
        let len = v.normal.magnitude();
        assert!((ONE - 4..=ONE).contains(&len), "normal of length {len}");
        let r = v.position.magnitude();
        assert!((ONE - 4..=ONE + 4).contains(&r), "position at distance {r}");
    }
}

#[test]
fn sphere_scales_with_the_radius() {
    let mesh = sphere_from_angles(3 * ONE, &angles(2, std::f64::consts::PI), &angles(4, std::f64::consts::TAU));
    assert_eq!(mesh.vertices.len(), 48);
    // The first cell starts at the north pole.
    assert_eq!(mesh.vertices[0].position, Vec3::new(0, 3 * ONE, 0));
    assert_eq!(mesh.vertices[0].normal, Vec3::new(0, ONE, 0));
    // Its second corner is on the equator at azimuth zero.
    assert_eq!(mesh.vertices[1].position, Vec3::new(3 * ONE, 0, 0));
    assert_eq!(mesh.vertices[1].normal, Vec3::new(ONE, 0, 0));
    // The two triangles of a cell share their diagonal.
    assert_eq!(mesh.vertices[2].position, mesh.vertices[3].position);
    assert_eq!(mesh.vertices[1].position, mesh.vertices[4].position);
    // The last corner of the first cell is on the equator at a quarter turn.
    assert_eq!(mesh.vertices[5].position, Vec3::new(0, 0, 3 * ONE));
}

#[test]
fn sphere_cells_follow_the_grid() {
    let rings = angles(3, std::f64::consts::PI);
    let segments = angles(5, std::f64::consts::TAU);
    let mesh = sphere_from_angles(ONE, &rings, &segments);
    let point = |r: usize, s: usize| {
        Vec3::new(
            soft_renderer::fixed::fx_mul(rings[r].sin, segments[s].cos),
            rings[r].cos,
            soft_renderer::fixed::fx_mul(rings[r].sin, segments[s].sin),
        )
    };
    for ring in 0..3 {
        for segment in 0..5 {
            let base = 6 * (ring * 5 + segment);
            let corners = [
                (ring, segment),
                (ring + 1, segment),
                (ring, segment + 1),
                (ring, segment + 1),
                (ring + 1, segment),
                (ring + 1, segment + 1),
            ];
            for (j, (r, s)) in corners.iter().enumerate() {
                assert_eq!(mesh.vertices[base + j].position, point(*r, *s));
                assert_eq!(mesh.vertices[base + j].normal, point(*r, *s).normalize());
            }
        }
    }
}

#[test]
fn sphere_without_rings_or_segments_is_empty() {
    let none: Vec<Angle> = Vec::new();
    let one = vec![Angle { sin: 0, cos: ONE }];
    assert!(sphere_from_angles(ONE, &none, &none).vertices.is_empty());
    assert!(sphere_from_angles(ONE, &one, &one).vertices.is_empty());
    assert!(sphere_from_angles(ONE, &one, &angles(4, 6.0)).vertices.is_empty());
    assert!(sphere_from_angles(ONE, &angles(4, 3.0), &one).vertices.is_empty());
    assert!(sphere_from_angles(ONE, &angles(4, 3.0), &none).vertices.is_empty());
}

#[test]
fn fan_of_a_quad_is_two_triangles() {
    let quad = vec![vertex(0), vertex(1), vertex(2), vertex(3)];
    let mut out = vec![vertex(9)];
    triangulate(&quad, &mut out);
    let xs: Vec<i32> = out.iter().map(|v| v.position.x / ONE).collect();
    assert_eq!(xs, vec![9, 0, 1, 2, 0, 2, 3]);
}

#[test]
fn fan_of_a_pentagon_is_three_triangles() {
    let polygon: Vec<Vertex> = (0..5).map(vertex).collect();
    let mut out = Vec::new();
    triangulate(&polygon, &mut out);
    let xs: Vec<i32> = out.iter().map(|v| v.position.x / ONE).collect();
    assert_eq!(xs, vec![0, 1, 2, 0, 2, 3, 0, 3, 4]);
}

#[test]
fn fan_of_less_than_a_triangle_is_empty() {
    for n in 0..3 {
        let polygon: Vec<Vertex> = (0..n).map(vertex).collect();
        let mut out = Vec::new();
        triangulate(&polygon, &mut out);
        assert!(out.is_empty());
    }
}

#[test]
fn face_corner_looks_up_one_based_indices() {
    let positions = vec![Vec3::new(ONE, 0, 0), Vec3::new(0, ONE, 0)];
    let normals = vec![Vec3::new(0, -ONE, 0)];
    let tex = vec![Vec2::new(HALF, HALF)];
    let v = face_vertex(
        &FaceCorner { position: 2, tex_coords: Some(1), normal: Some(1) },
        &positions,
        &normals,
        &tex,
    );
    assert_eq!(v.position, Vec3::new(0, ONE, 0));
    assert_eq!(v.normal, Vec3::new(0, -ONE, 0));
    assert_eq!(v.transformed_normal, Vec3::new(0, -ONE, 0));
    assert_eq!(v.tex_coords, Vec2::new(HALF, HALF));
    assert_eq!(v.color, Color::white());
    assert_eq!(v.transformed_position, Vec4::new(0, 0, 0, ONE));
}

#[test]
fn face_corner_falls_back_on_defaults() {
    let positions = vec![Vec3::new(ONE, 0, 0)];
    let normals = vec![Vec3::new(0, -ONE, 0)];
    let tex = vec![Vec2::new(HALF, HALF)];
    for corner in [
        FaceCorner { position: 0, tex_coords: Some(0), normal: Some(0) },
        FaceCorner { position: 2, tex_coords: Some(2), normal: Some(2) },
        FaceCorner { position: usize::MAX, tex_coords: None, normal: None },
    ] {
        let v = face_vertex(&corner, &positions, &normals, &tex);
        assert_eq!(v.position, Vec3::new(0, 0, 0));
        assert_eq!(v.normal, Vec3::new(0, 0, ONE));
        assert_eq!(v.tex_coords, Vec2::new(0, 0));
    }
}

#[test]
fn mesh_is_built_in_file_order() {
    let corner = |p: usize| FaceCorner { position: p, tex_coords: None, normal: Some(1) };
    let records = vec![
        ObjRecord::Position(Vec3::new(ONE, 0, 0)),
        ObjRecord::Position(Vec3::new(2 * ONE, 0, 0)),
        ObjRecord::Normal(Vec3::new(0, ONE, 0)),
        ObjRecord::TexCoords(Vec2::new(HALF, 0)),
        // Position 3 is not defined yet when this face is read.
        ObjRecord::Face(vec![corner(1), corner(2), corner(3)]),
        ObjRecord::Position(Vec3::new(3 * ONE, 0, 0)),
        ObjRecord::Position(Vec3::new(4 * ONE, 0, 0)),
        ObjRecord::Face(vec![corner(1), corner(2), corner(3), corner(4)]),
        ObjRecord::Face(vec![corner(1), corner(2)]),
        ObjRecord::Face(vec![]),
    ];
    let mesh = build_mesh(&records);
    let xs: Vec<i32> = mesh.vertices.iter().map(|v| v.position.x / ONE).collect();
    assert_eq!(xs, vec![1, 2, 0, 1, 2, 3, 1, 3, 4]);
    for v in &mesh.vertices {
        assert_eq!(v.normal, Vec3::new(0, ONE, 0));
        assert_eq!(v.color, Color::white());
    }
}

#[test]
fn mesh_of_no_records_is_empty() {
    assert!(build_mesh(&Vec::new()).vertices.is_empty());
}

#[test]
fn drawing_a_mesh_draws_its_triangles_in_order() {
    let mut u = Uniforms::new();
    u.viewport_matrix = create_viewport_matrix(4 * ONE, 4 * ONE);
    let n = Vec3::new(0, 0, -ONE);
    let v = |x: i32, y: i32, z: Fixed, c: Color| Vertex::new(Vec3::new(x * ONE, y * ONE, z), n, c);
    let vertices = vec![
        // The upper left half of the screen, far.
        v(-1, 1, fx(0.75), Color::red()),
        v(-1, -1, fx(0.75), Color::red()),
        v(1, 1, fx(0.75), Color::red()),
        // The whole screen and more, near.
        v(-3, 1, fx(0.25), Color::green()),
        v(1, -3, fx(0.25), Color::green()),
        v(1, 1, fx(0.25), Color::green()),
        // Two vertices left over.
        v(-1, 1, 0, Color::white()),
        v(-1, -1, 0, Color::white()),
    ];
    let mut one_by_one = Framebuffer::new(4, 4);
    one_by_one.clear();
    triangle_3d(&vertices[0], &vertices[1], &vertices[2], &u, &mut one_by_one, &flat, &still);
    triangle_3d(&vertices[3], &vertices[4], &vertices[5], &u, &mut one_by_one, &flat, &still);
    let mut at_once = Framebuffer::new(4, 4);
    at_once.clear();
    draw_mesh(&Mesh::new(vertices), &u, &mut at_once, &flat, &still);
    assert_eq!(at_once.buffer, one_by_one.buffer);
    assert_eq!(at_once.depth_buffer, one_by_one.depth_buffer);
    assert_eq!(at_once.buffer[0], 0x00ff00);
    assert_eq!(at_once.buffer[15], 0x00ff00);
}

#[test]
fn unit_sphere_seen_from_the_front_is_brightest_in_the_middle() {
    // The camera looks along -z in view space, so a sphere in front of it
    // shows the side whose normals point along -z after the model matrix.
    let mut u = Uniforms::new();
    u.viewport_matrix = create_viewport_matrix(32 * ONE, 32 * ONE);
    let mesh = sphere_from_angles(
        ONE - 1024,
        &angles(24, std::f64::consts::PI),
        &angles(24, std::f64::consts::TAU),
    );
    let mut fb = Framebuffer::new(32, 32);
    fb.clear();
    let bg = fb.buffer[0];
    draw_mesh(&mesh, &u, &mut fb, &flat, &still);
    // The middle of the disc faces the light and keeps nearly all of white.
    let middle = fb.buffer[16 * 32 + 16];
    assert!(middle & 0xff >= 0xf8, "middle is {middle:06x}");
    // The corners of the screen show the background.
    assert_eq!(fb.buffer[0], bg);
    assert_eq!(fb.buffer[31], bg);
    // The nearest pixel is in the middle.
    let nearest = (0..32 * 32).min_by_key(|i| fb.depth_buffer[*i]).unwrap();
    assert!((14..18).contains(&(nearest % 32)) && (14..18).contains(&(nearest / 32)));
}

fn trig(angle: Fixed) -> Angle {
    let a = angle as f64 / 65536.0;
    Angle { sin: fx(a.sin()), cos: fx(a.cos()) }
}

#[test]
fn sphere_asks_for_the_angles_of_its_grid() {
    let asked = std::cell::RefCell::new(Vec::new());
    let recording = |angle: Fixed| {
        asked.borrow_mut().push(angle);
        trig(angle)
    };
    let mesh = create_sphere(2 * ONE, 4, 2, &recording);
    // Two rings share pi, four segments share twice pi.
    assert_eq!(
        *asked.borrow(),
        vec![0, 102943, 205887, 0, 102943, 205887, 308831, 411775]
    );
    assert_eq!(mesh.vertices.len(), 48);
    let same = sphere_from_angles(
        2 * ONE,
        &[0, 102943, 205887].iter().map(|a| trig(*a)).collect(),
        &[0, 102943, 205887, 308831, 411775].iter().map(|a| trig(*a)).collect(),
    );
    for (a, b) in mesh.vertices.iter().zip(same.vertices.iter()) {
        assert_eq!(a.position, b.position);
        assert_eq!(a.normal, b.normal);
    }
    // North pole, then the equator at azimuth zero: half of pi is not
    // exact, and its cosine is one unit off zero.
    assert_eq!(mesh.vertices[0].position, Vec3::new(0, 2 * ONE, 0));
    assert_eq!(mesh.vertices[1].position, Vec3::new(2 * ONE, 2, 0));
}

#[test]
fn sphere_without_rings_or_segments_asks_for_nothing() {
    let asked = std::cell::Cell::new(0);
    let counting = |angle: Fixed| {
        asked.set(asked.get() + 1);
        trig(angle)
    };
    assert!(create_sphere(ONE, 0, 0, &counting).vertices.is_empty());
    assert!(create_sphere(ONE, 8, 0, &counting).vertices.is_empty());
    assert!(create_sphere(ONE, 0, 8, &counting).vertices.is_empty());
    assert_eq!(asked.get(), 0);
    assert_eq!(create_sphere(ONE, 1, 1, &counting).vertices.len(), 6);
    assert_eq!(asked.get(), 4);
}

#[test]
fn sphere_vertices_lie_on_the_sphere() {
    let mesh = create_sphere(3 * ONE, 20, 10, &trig);
    assert_eq!(mesh.vertices.len(), 6 * 20 * 10);
    for v in &mesh.vertices {
        let r = v.position.length() as i64;
        assert!((r - 3 * ONE as i64).abs() <= 16, "distance {r}");
        let n = v.normal.length() as i64;
        assert!((n - ONE as i64).abs() <= 2, "normal of length {n}");
        // The normal points away from the middle.
        assert!(v.normal.dot(&v.position) > 0);
    }
}

fn bytes(text: &str) -> Vec<u8> {
    text.as_bytes().to_vec()
}

#[test]
fn lines_are_told_apart_by_their_first_word() {
    assert_eq!(line_kind(&bytes("v"), 4), LineKind::Position);
    assert_eq!(line_kind(&bytes("v"), 5), LineKind::Position);
    assert_eq!(line_kind(&bytes("v"), 3), LineKind::Skip);
    assert_eq!(line_kind(&bytes("vn"), 4), LineKind::Normal);
    assert_eq!(line_kind(&bytes("vn"), 3), LineKind::Skip);
    assert_eq!(line_kind(&bytes("vt"), 3), LineKind::TexCoords);
    assert_eq!(line_kind(&bytes("vt"), 2), LineKind::Skip);
    assert_eq!(line_kind(&bytes("f"), 1), LineKind::Face);
    assert_eq!(line_kind(&bytes("f"), 4), LineKind::Face);
    for tag in ["", "o", "g", "s", "vp", "V", "F", "ff", "vnn", "usemtl", "mtllib"] {
        assert_eq!(line_kind(&bytes(tag), 4), LineKind::Skip, "{tag}");
    }
}

#[test]
fn indices_are_decimal_numbers() {
    assert_eq!(parse_index(&bytes("0")), Some(0));
    assert_eq!(parse_index(&bytes("7")), Some(7));
    assert_eq!(parse_index(&bytes("0042")), Some(42));
    assert_eq!(parse_index(&bytes("+15")), Some(15));
    assert_eq!(parse_index(&bytes("4294967295")), Some(4294967295));
    for text in ["", "+", "-1", "1.5", "12a", " 3", "3 ", "++1", "1+", "0x10", "１"] {
        assert_eq!(parse_index(&bytes(text)), None, "{text:?}");
    }
}

#[test]
fn indices_agree_with_the_standard_parser() {
    let max = usize::MAX.to_string();
    let mut over = max.clone();
    over.push('0');
    let mut next = max.clone();
    let last = next.pop().unwrap();
    next.push(char::from_digit(last.to_digit(10).unwrap() + 1, 10).unwrap_or('9'));
    for text in [
        "1", "10", "007", "+0", "+", "", "-0", "18446744073709551615", "18446744073709551616",
        "99999999999999999999999", "12345678901234567890", max.as_str(), over.as_str(),
        next.as_str(),
    ] {
        assert_eq!(parse_index(&bytes(text)), text.parse::<usize>().ok(), "{text:?}");
    }
}

#[test]
fn corners_have_up_to_three_indices() {
    let c = |text: &str| {
        let c = parse_corner(&bytes(text));
        (c.position, c.tex_coords, c.normal)
    };
    assert_eq!(c("3"), (3, None, None));
    assert_eq!(c("3/4"), (3, Some(4), None));
    assert_eq!(c("3/4/5"), (3, Some(4), Some(5)));
    assert_eq!(c("3//5"), (3, None, Some(5)));
    assert_eq!(c("3/4/5/6"), (3, Some(4), Some(5)));
    // What is missing or no number: the position counts as one, the others
    // as missing.
    assert_eq!(c(""), (1, None, None));
    assert_eq!(c("x"), (1, None, None));
    assert_eq!(c("/"), (1, None, None));
    assert_eq!(c("//"), (1, None, None));
    assert_eq!(c("x/y/z"), (1, None, None));
    assert_eq!(c("/2/"), (1, Some(2), None));
    assert_eq!(c("//9"), (1, None, Some(9)));
    assert_eq!(c("0/0/0"), (0, Some(0), Some(0)));
    assert_eq!(c("-1/2/3"), (1, Some(2), Some(3)));
}
