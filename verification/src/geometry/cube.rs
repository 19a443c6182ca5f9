//! A cube with one color per face.

use vstd::prelude::*;
use crate::color::Color;
use crate::fixed::ONE;
use crate::vector::{Vec2, Vec3, Vec4};
use crate::vertex::Vertex;

verus! {

/// The vertex of the cube at the corner with the given signs, on the face
/// with the given outward normal and color.
pub open spec fn cube_vertex(x: int, y: int, z: int, nx: int, ny: int, nz: int, color: Color)
    -> Vertex {
    Vertex {
        position: Vec3 { x: (x * ONE) as i32, y: (y * ONE) as i32, z: (z * ONE) as i32 },
        normal: Vec3 { x: (nx * ONE) as i32, y: (ny * ONE) as i32, z: (nz * ONE) as i32 },
        tex_coords: Vec2 { x: 0, y: 0 },
        color,
        transformed_position: Vec4 { x: 0, y: 0, z: 0, w: ONE },
        transformed_normal: Vec3 { x: (nx * ONE) as i32, y: (ny * ONE) as i32, z: (nz * ONE) as i32 },
    }
}

/// The two triangles of the back face.
pub open spec fn back_face() -> Seq<Vertex> {
    let color = Color { r: 255, g: 0, b: 255 };
    seq![
        cube_vertex(-1, -1, -1, 0, 0, -1, color),
        cube_vertex(1, -1, -1, 0, 0, -1, color),
        cube_vertex(1, 1, -1, 0, 0, -1, color),
        cube_vertex(1, 1, -1, 0, 0, -1, color),
        cube_vertex(-1, 1, -1, 0, 0, -1, color),
        cube_vertex(-1, -1, -1, 0, 0, -1, color),
    ]
}

/// The two triangles of the front face.
pub open spec fn front_face() -> Seq<Vertex> {
    let color = Color { r: 0, g: 255, b: 255 };
    seq![
        cube_vertex(-1, -1, 1, 0, 0, 1, color),
        cube_vertex(1, 1, 1, 0, 0, 1, color),
        cube_vertex(1, -1, 1, 0, 0, 1, color),
        cube_vertex(1, 1, 1, 0, 0, 1, color),
        cube_vertex(-1, -1, 1, 0, 0, 1, color),
        cube_vertex(-1, 1, 1, 0, 0, 1, color),
    ]
}

/// The two triangles of the left face.
pub open spec fn left_face() -> Seq<Vertex> {
    let color = Color { r: 255, g: 255, b: 0 };
    seq![
        cube_vertex(-1, -1, -1, -1, 0, 0, color),
        cube_vertex(-1, 1, 1, -1, 0, 0, color),
        cube_vertex(-1, -1, 1, -1, 0, 0, color),
        cube_vertex(-1, 1, 1, -1, 0, 0, color),
        cube_vertex(-1, -1, -1, -1, 0, 0, color),
        cube_vertex(-1, 1, -1, -1, 0, 0, color),
    ]
}

/// The two triangles of the right face.
pub open spec fn right_face() -> Seq<Vertex> {
    let color = Color { r: 128, g: 0, b: 128 };
    seq![
        cube_vertex(1, -1, -1, 1, 0, 0, color),
        cube_vertex(1, -1, 1, 1, 0, 0, color),
        cube_vertex(1, 1, 1, 1, 0, 0, color),
        cube_vertex(1, 1, 1, 1, 0, 0, color),
        cube_vertex(1, 1, -1, 1, 0, 0, color),
        cube_vertex(1, -1, -1, 1, 0, 0, color),
    ]
}

/// The two triangles of the bottom face.
pub open spec fn bottom_face() -> Seq<Vertex> {
    let color = Color { r: 255, g: 0, b: 0 };
    seq![
        cube_vertex(-1, -1, -1, 0, -1, 0, color),
        cube_vertex(1, -1, 1, 0, -1, 0, color),
        cube_vertex(1, -1, -1, 0, -1, 0, color),
        cube_vertex(1, -1, 1, 0, -1, 0, color),
        cube_vertex(-1, -1, -1, 0, -1, 0, color),
        cube_vertex(-1, -1, 1, 0, -1, 0, color),
    ]
}

/// The two triangles of the top face.
pub open spec fn top_face() -> Seq<Vertex> {
    let color = Color { r: 0, g: 255, b: 0 };
    seq![
        cube_vertex(-1, 1, -1, 0, 1, 0, color),
        cube_vertex(1, 1, -1, 0, 1, 0, color),
        cube_vertex(1, 1, 1, 0, 1, 0, color),
        cube_vertex(1, 1, 1, 0, 1, 0, color),
        cube_vertex(-1, 1, 1, 0, 1, 0, color),
        cube_vertex(-1, 1, -1, 0, 1, 0, color),
    ]
}

/// The 36 vertices of the cube: two triangles for each of the faces, in the
/// order back, front, left, right, bottom, top.
pub open spec fn cube() -> Seq<Vertex> {
    back_face() + front_face() + left_face() + right_face() + bottom_face() + top_face()
}

fn corner(x: i32, y: i32, z: i32, nx: i32, ny: i32, nz: i32, color: Color) -> (v: Vertex)
    requires
        -1 <= x <= 1,
        -1 <= y <= 1,
        -1 <= z <= 1,
        -1 <= nx <= 1,
        -1 <= ny <= 1,
        -1 <= nz <= 1,
    ensures
        v == cube_vertex(x as int, y as int, z as int, nx as int, ny as int, nz as int, color),
{
    Vertex::new(
        Vec3 { x: x * 65536, y: y * 65536, z: z * 65536 },
        Vec3 { x: nx * 65536, y: ny * 65536, z: nz * 65536 },
        color,
    )
}

fn push_back_face(vertices: &mut Vec<Vertex>)
    ensures
        final(vertices)@ == old(vertices)@ + back_face(),
{
    let color: Color = Color::magenta();
    vertices.push(corner(-1, -1, -1, 0, 0, -1, color));
    vertices.push(corner(1, -1, -1, 0, 0, -1, color));
    vertices.push(corner(1, 1, -1, 0, 0, -1, color));
    vertices.push(corner(1, 1, -1, 0, 0, -1, color));
    vertices.push(corner(-1, 1, -1, 0, 0, -1, color));
    vertices.push(corner(-1, -1, -1, 0, 0, -1, color));
    assert(vertices@ =~= old(vertices)@ + back_face());
}

fn push_front_face(vertices: &mut Vec<Vertex>)
    ensures
        final(vertices)@ == old(vertices)@ + front_face(),
{
    let color: Color = Color::cyan();
    vertices.push(corner(-1, -1, 1, 0, 0, 1, color));
    vertices.push(corner(1, 1, 1, 0, 0, 1, color));
    vertices.push(corner(1, -1, 1, 0, 0, 1, color));
    vertices.push(corner(1, 1, 1, 0, 0, 1, color));
    vertices.push(corner(-1, -1, 1, 0, 0, 1, color));
    vertices.push(corner(-1, 1, 1, 0, 0, 1, color));
    assert(vertices@ =~= old(vertices)@ + front_face());
}

fn push_left_face(vertices: &mut Vec<Vertex>)
    ensures
        final(vertices)@ == old(vertices)@ + left_face(),
{
    let color: Color = Color::neon_yellow();
    vertices.push(corner(-1, -1, -1, -1, 0, 0, color));
    vertices.push(corner(-1, 1, 1, -1, 0, 0, color));
    vertices.push(corner(-1, -1, 1, -1, 0, 0, color));
    vertices.push(corner(-1, 1, 1, -1, 0, 0, color));
    vertices.push(corner(-1, -1, -1, -1, 0, 0, color));
    vertices.push(corner(-1, 1, -1, -1, 0, 0, color));
    assert(vertices@ =~= old(vertices)@ + left_face());
}

fn push_right_face(vertices: &mut Vec<Vertex>)
    ensures
        final(vertices)@ == old(vertices)@ + right_face(),
{
    let color: Color = Color::purple();
    vertices.push(corner(1, -1, -1, 1, 0, 0, color));
    vertices.push(corner(1, -1, 1, 1, 0, 0, color));
    vertices.push(corner(1, 1, 1, 1, 0, 0, color));
    vertices.push(corner(1, 1, 1, 1, 0, 0, color));
    vertices.push(corner(1, 1, -1, 1, 0, 0, color));
    vertices.push(corner(1, -1, -1, 1, 0, 0, color));
    assert(vertices@ =~= old(vertices)@ + right_face());
}

fn push_bottom_face(vertices: &mut Vec<Vertex>)
    ensures
        final(vertices)@ == old(vertices)@ + bottom_face(),
{
    let color: Color = Color::red();
    vertices.push(corner(-1, -1, -1, 0, -1, 0, color));
    vertices.push(corner(1, -1, 1, 0, -1, 0, color));
    vertices.push(corner(1, -1, -1, 0, -1, 0, color));
    vertices.push(corner(1, -1, 1, 0, -1, 0, color));
    vertices.push(corner(-1, -1, -1, 0, -1, 0, color));
    vertices.push(corner(-1, -1, 1, 0, -1, 0, color));
    assert(vertices@ =~= old(vertices)@ + bottom_face());
}

fn push_top_face(vertices: &mut Vec<Vertex>)
    ensures
        final(vertices)@ == old(vertices)@ + top_face(),
{
    let color: Color = Color::green();
    vertices.push(corner(-1, 1, -1, 0, 1, 0, color));
    vertices.push(corner(1, 1, -1, 0, 1, 0, color));
    vertices.push(corner(1, 1, 1, 0, 1, 0, color));
    vertices.push(corner(1, 1, 1, 0, 1, 0, color));
    vertices.push(corner(-1, 1, 1, 0, 1, 0, color));
    vertices.push(corner(-1, 1, -1, 0, 1, 0, color));
    assert(vertices@ =~= old(vertices)@ + top_face());
}

/// A cube with corners at plus and minus one, as a list of 12 triangles.
pub fn create_cube() -> (vertices: Vec<Vertex>)
    ensures
        vertices@ == cube(),
        vertices@.len() == 36,
{
    let mut vertices: Vec<Vertex> = Vec::new();
    push_back_face(&mut vertices);
    push_front_face(&mut vertices);
    push_left_face(&mut vertices);
    push_right_face(&mut vertices);
    push_bottom_face(&mut vertices);
    push_top_face(&mut vertices);
    assert(vertices@ =~= cube());
    vertices
}

} // verus!
