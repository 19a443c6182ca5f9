//! A sphere made of rings and segments.

use vstd::prelude::*;
use crate::color::Color;
use crate::fixed::{divide_wide, product, trunc_div, Fixed, PI, TWO_PI};
use crate::geometry::mesh::Mesh;
use crate::vector::{normalized, scaled_vector, Angle, Vec2, Vec3, Vec4};
use crate::vertex::Vertex;

verus! {

/// The point of the unit sphere at the polar angle `ring` and the azimuth
/// `segment`: `(sin(ring) cos(segment), cos(ring), sin(ring) sin(segment))`.
pub open spec fn sphere_point(ring: Angle, segment: Angle) -> Vec3 {
    Vec3 {
        x: product(ring.sin as int, segment.cos as int) as i32,
        y: ring.cos,
        z: product(ring.sin as int, segment.sin as int) as i32,
    }
}

/// The white vertex of a sphere of the given radius at a point of the unit
/// sphere.
pub open spec fn sphere_vertex(point: Vec3, radius: Fixed) -> Vertex {
    Vertex {
        position: scaled_vector(point, radius as int),
        normal: normalized(point),
        tex_coords: Vec2 { x: 0, y: 0 },
        color: Color { r: 255, g: 255, b: 255 },
        transformed_position: Vec4 { x: 0, y: 0, z: 0, w: 65536 },
        transformed_normal: normalized(point),
    }
}

/// The number of cells between `lines` grid lines.
pub open spec fn cells(lines: nat) -> nat {
    if lines == 0 {
        0
    } else {
        (lines - 1) as nat
    }
}

/// The ring and the segment, counted from the cell's own, of each of the
/// six triangle corners that a cell of the grid gives: two triangles that
/// share the diagonal from the next ring to the next segment.
pub open spec fn corner_ring(corner: int) -> int {
    if corner == 1 || corner == 4 || corner == 5 {
        1
    } else {
        0
    }
}

/// See `corner_ring`.
pub open spec fn corner_segment(corner: int) -> int {
    if corner == 2 || corner == 3 || corner == 5 {
        1
    } else {
        0
    }
}

/// What vertex number `i` of a sphere mesh is: corner `i % 6` of the cell
/// `i / 6`, cells counted segment by segment within each ring.
pub open spec fn sphere_mesh_vertex(
    i: int,
    radius: Fixed,
    segments: int,
    ring_angles: Seq<Angle>,
    segment_angles: Seq<Angle>,
) -> Vertex {
    let cell = i / 6;
    let corner = i % 6;
    sphere_vertex(
        sphere_point(
            ring_angles[cell / segments + corner_ring(corner)],
            segment_angles[cell % segments + corner_segment(corner)],
        ),
        radius,
    )
}

/// The vertices of the sphere mesh for the given radius and angles.
pub open spec fn sphere_mesh(radius: Fixed, ring_angles: Seq<Angle>, segment_angles: Seq<Angle>)
    -> Seq<Vertex> {
    Seq::new(
        6 * cells(ring_angles.len()) * cells(segment_angles.len()),
        |i: int|
            sphere_mesh_vertex(
                i,
                radius,
                cells(segment_angles.len()) as int,
                ring_angles,
                segment_angles,
            ),
    )
}

/// The vertex of a sphere at the given pair of angles.
fn grid_vertex(ring: &Angle, segment: &Angle, radius: Fixed) -> (v: Vertex)
    ensures
        v == sphere_vertex(sphere_point(*ring, *segment), radius),
{
    let point: Vec3 = Vec3 {
        x: crate::fixed::fx_mul(ring.sin, segment.cos),
        y: ring.cos,
        z: crate::fixed::fx_mul(ring.sin, segment.sin),
    };
    Vertex::new(point.scale(radius), point.normalize(), Color::white())
}

/// A sphere of the given radius about the origin, made of bands of cells
/// with two triangles each. `ring_angles` holds the polar angle of each
/// circle of latitude, from pole to pole, and `segment_angles` the azimuth
/// of each meridian, the last of which closes the sphere: one more of each
/// than there are rings and segments. With fewer than two of either there
/// is no cell and the mesh is empty.
pub fn sphere_from_angles(
    radius: Fixed,
    ring_angles: &Vec<Angle>,
    segment_angles: &Vec<Angle>,
) -> (mesh: Mesh)
    ensures
        mesh.vertices@ == sphere_mesh(radius, ring_angles@, segment_angles@),
{
    let mut triangles: Vec<Vertex> = Vec::new();
    let rings: usize = if ring_angles.len() == 0 {
        0
    } else {
        ring_angles.len() - 1
    };
    let segments: usize = if segment_angles.len() == 0 {
        0
    } else {
        segment_angles.len() - 1
    };
    let mut ring: usize = 0;
    while ring < rings
        invariant
            ring <= rings,
            rings == cells(ring_angles@.len()),
            segments == cells(segment_angles@.len()),
            triangles@.len() == 6 * (ring * segments),
            forall|i: int|
                0 <= i < triangles@.len() ==> #[trigger] triangles@[i] == sphere_mesh_vertex(
                    i,
                    radius,
                    segments as int,
                    ring_angles@,
                    segment_angles@,
                ),
        decreases rings - ring,
    {
        let mut segment: usize = 0;
        while segment < segments
            invariant
                ring < rings,
                segment <= segments,
                rings == cells(ring_angles@.len()),
                segments == cells(segment_angles@.len()),
                triangles@.len() == 6 * (ring * segments + segment),
                forall|i: int|
                    0 <= i < triangles@.len() ==> #[trigger] triangles@[i] == sphere_mesh_vertex(
                        i,
                        radius,
                        segments as int,
                        ring_angles@,
                        segment_angles@,
                    ),
            decreases segments - segment,
        {
            let current: Vertex = grid_vertex(&ring_angles[ring], &segment_angles[segment], radius);
            let beside: Vertex = grid_vertex(
                &ring_angles[ring],
                &segment_angles[segment + 1],
                radius,
            );
            let next: Vertex = grid_vertex(&ring_angles[ring + 1], &segment_angles[segment], radius);
            let across: Vertex = grid_vertex(
                &ring_angles[ring + 1],
                &segment_angles[segment + 1],
                radius,
            );
            let ghost cell: int = ring * segments + segment;
            let ghost before = triangles@;
            proof {
                lemma_cell(ring as int, segment as int, segments as int);
                assert(before.len() == 6 * cell);
            }
            triangles.push(current);
            triangles.push(next);
            triangles.push(beside);
            triangles.push(beside);
            triangles.push(next);
            triangles.push(across);
            proof {
                assert forall|i: int| 0 <= i < triangles@.len() implies #[trigger] triangles@[i]
                    == sphere_mesh_vertex(
                    i,
                    radius,
                    segments as int,
                    ring_angles@,
                    segment_angles@,
                ) by {
                    if i < 6 * cell {
                        assert(triangles@[i] == before[i]);
                    } else {
                        assert(i / 6 == cell && i % 6 == i - 6 * cell);
                    }
                }
            }
            segment += 1;
        }
        proof {
            assert(ring * segments + segments == (ring + 1) * segments) by (nonlinear_arith);
        }
        ring += 1;
    }
    proof {
        assert(6 * (rings * segments) == 6 * rings * segments) by (nonlinear_arith);
        assert(triangles@ =~= sphere_mesh(radius, ring_angles@, segment_angles@));
    }
    Mesh::new(triangles)
}

/// Cell number `ring * segments + segment` lies in ring `ring` at segment
/// `segment`.
proof fn lemma_cell(ring: int, segment: int, segments: int)
    requires
        0 <= ring,
        0 <= segment < segments,
    ensures
        (ring * segments + segment) / segments == ring,
        (ring * segments + segment) % segments == segment,
        0 <= ring * segments,
{
    vstd::arithmetic::div_mod::lemma_fundamental_div_mod_converse(
        ring * segments + segment,
        segments,
        ring,
        segment,
    );
    assert(0 <= ring * segments) by (nonlinear_arith)
        requires
            0 <= ring,
            0 <= segments,
    ;
}

/// Grid line number `i` of `count` cells that share the angle `full`
/// evenly: `i * full / count`.
pub open spec fn grid_angle(i: int, count: int, full: int) -> Fixed
    recommends
        count > 0,
{
    trunc_div(i * full, count) as i32
}

/// `table` holds, for each of the grid lines of `count` cells that share
/// the angle `full` evenly, a sine and cosine that `trig` returned for the
/// line's angle.
pub open spec fn grid_table<T: Fn(Fixed) -> Angle>(
    table: Seq<Angle>,
    count: int,
    full: int,
    trig: &T,
) -> bool {
    &&& table.len() == count + 1
    &&& forall|i: int|
        0 <= i <= count ==> call_ensures(trig, (grid_angle(i, count, full),), #[trigger] table[i])
}

/// The sines and cosines of the grid lines of `count` cells that share the
/// angle `full` evenly.
fn grid_angles<T: Fn(Fixed) -> Angle>(count: u32, full: Fixed, trig: &T) -> (table: Vec<Angle>)
    requires
        count > 0,
        0 <= full,
        forall|a: Fixed| call_requires(trig, (a,)),
    ensures
        grid_table(table@, count as int, full as int, trig),
{
    let mut table: Vec<Angle> = Vec::new();
    let mut i: u64 = 0;
    while i <= count as u64
        invariant
            i <= count + 1,
            count > 0,
            0 <= full,
            forall|a: Fixed| call_requires(trig, (a,)),
            table@.len() == i,
            forall|j: int|
                0 <= j < i ==> call_ensures(
                    trig,
                    (grid_angle(j, count as int, full as int),),
                    #[trigger] table@[j],
                ),
        decreases count + 1 - i,
    {
        proof {
            crate::fixed::lemma_product_bound(i as int, full as int, 0x1_0000_0000, 0x8000_0000);
            crate::fixed::lemma_trunc_div_bounds(i * full, count as int);
            assert(0 <= i * full <= count * full) by (nonlinear_arith)
                requires
                    0 <= i <= count,
                    0 <= full,
            ;
            crate::fixed::lemma_trunc_div_monotonic(i * full, count * full, count as int);
            crate::fixed::lemma_trunc_div_exact(full as int, count as int);
            assert(count * full == full * count) by (nonlinear_arith);
        }
        let angle: i128 = divide_wide((i as i128) * (full as i128), count as i128);
        let ghost earlier = table@;
        table.push(trig(angle as i32));
        proof {
            assert forall|j: int| 0 <= j < i + 1 implies call_ensures(
                trig,
                (grid_angle(j, count as int, full as int),),
                #[trigger] table@[j],
            ) by {
                if j < i {
                    assert(table@[j] == earlier[j]);
                }
            }
        }
        i += 1;
    }
    table
}

/// `vertices` are those of a sphere of the given radius made of `rings`
/// bands of `segments` cells, with circles of latitude at the polar angles
/// `ring * pi / rings` and meridians at the azimuths
/// `segment * 2 pi / segments`, for sines and cosines that `trig` returned
/// for these angles. Without rings or without segments the sphere has no
/// vertices.
pub open spec fn sphere_made<T: Fn(Fixed) -> Angle>(
    vertices: Seq<Vertex>,
    radius: Fixed,
    segments: int,
    rings: int,
    trig: &T,
) -> bool {
    if rings == 0 || segments == 0 {
        vertices.len() == 0
    } else {
        exists|ring_angles: Seq<Angle>, segment_angles: Seq<Angle>|
            {
                &&& grid_table(ring_angles, rings, PI as int, trig)
                &&& grid_table(segment_angles, segments, TWO_PI as int, trig)
                &&& vertices == #[trigger] sphere_mesh(radius, ring_angles, segment_angles)
            }
    }
}

/// A sphere of the given radius about the origin, made of `rings` bands of
/// `segments` cells with two triangles each. `trig` is asked once for the
/// sine and cosine of each circle of latitude and of each meridian.
pub fn create_sphere<T: Fn(Fixed) -> Angle>(radius: Fixed, segments: u32, rings: u32, trig: &T) -> (mesh:
    Mesh)
    requires
        forall|a: Fixed| call_requires(trig, (a,)),
    ensures
        sphere_made(mesh.vertices@, radius, segments as int, rings as int, trig),
{
    if rings == 0 || segments == 0 {
        return Mesh::new(Vec::new());
    }
    let ring_angles: Vec<Angle> = grid_angles(rings, 205887, trig);
    let segment_angles: Vec<Angle> = grid_angles(segments, 411775, trig);
    sphere_from_angles(radius, &ring_angles, &segment_angles)
}

} // verus!
