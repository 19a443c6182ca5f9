//! Building a mesh from the records of a Wavefront OBJ file.

use vstd::prelude::*;
use crate::color::Color;
use crate::geometry::mesh::Mesh;
use crate::vector::{Vec2, Vec3, Vec4};
use crate::vertex::Vertex;

verus! {

/// One corner of a face, as the file names it. Indices count from one; a
/// corner that gives no position index, or one that is no number, has the
/// position index one.
#[derive(Clone, Copy, Debug)]
pub struct FaceCorner {
    pub position: usize,
    pub tex_coords: Option<usize>,
    pub normal: Option<usize>,
}

/// One line of the file that says something.
#[derive(Debug)]
pub enum ObjRecord {
    /// A `v` line.
    Position(Vec3),
    /// A `vn` line.
    Normal(Vec3),
    /// A `vt` line.
    TexCoords(Vec2),
    /// An `f` line, with its corners in order.
    Face(Vec<FaceCorner>),
}

/// What the file has defined so far.
pub struct Tables {
    pub positions: Seq<Vec3>,
    pub normals: Seq<Vec3>,
    pub tex_coords: Seq<Vec2>,
}

/// The entry that a one-based index names, if there is one.
pub open spec fn entry<T>(table: Seq<T>, index: int) -> Option<T> {
    if 1 <= index <= table.len() {
        Some(table[index - 1])
    } else {
        None
    }
}

/// The vertex at a corner of a face: white, at the named position or the
/// origin, with the named normal or `(0, 0, 1)`, and with the named texture
/// coordinates or zero.
pub open spec fn corner_vertex(c: FaceCorner, t: Tables) -> Vertex {
    let position = match entry(t.positions, c.position as int) {
        Some(p) => p,
        None => Vec3 { x: 0, y: 0, z: 0 },
    };
    let normal = match c.normal {
        Some(i) => match entry(t.normals, i as int) {
            Some(n) => n,
            None => Vec3 { x: 0, y: 0, z: 65536 },
        },
        None => Vec3 { x: 0, y: 0, z: 65536 },
    };
    let tex_coords = match c.tex_coords {
        Some(i) => match entry(t.tex_coords, i as int) {
            Some(uv) => uv,
            None => Vec2 { x: 0, y: 0 },
        },
        None => Vec2 { x: 0, y: 0 },
    };
    Vertex {
        position,
        normal,
        tex_coords,
        color: Color { r: 255, g: 255, b: 255 },
        transformed_position: Vec4 { x: 0, y: 0, z: 0, w: 65536 },
        transformed_normal: normal,
    }
}

/// The triangles of a fan over a polygon: the first corner with each pair
/// of neighbours among the others. A polygon of fewer than three corners
/// gives none.
pub open spec fn fan(polygon: Seq<Vertex>) -> Seq<Vertex> {
    Seq::new(
        if polygon.len() < 3 {
            0
        } else {
            (3 * (polygon.len() - 2)) as nat
        },
        |i: int|
            if i % 3 == 0 {
                polygon[0]
            } else {
                polygon[i / 3 + i % 3]
            },
    )
}

/// The vertices that a face adds to the mesh.
pub open spec fn face_triangles(corners: Seq<FaceCorner>, t: Tables) -> Seq<Vertex> {
    fan(Seq::new(corners.len(), |i: int| corner_vertex(corners[i], t)))
}

/// The tables after a record.
pub open spec fn tables_after(t: Tables, r: ObjRecord) -> Tables {
    match r {
        ObjRecord::Position(p) => Tables { positions: t.positions.push(p), ..t },
        ObjRecord::Normal(n) => Tables { normals: t.normals.push(n), ..t },
        ObjRecord::TexCoords(uv) => Tables { tex_coords: t.tex_coords.push(uv), ..t },
        ObjRecord::Face(_) => t,
    }
}

/// The tables after all the records.
pub open spec fn tables_of(records: Seq<ObjRecord>) -> Tables
    decreases records.len(),
{
    if records.len() == 0 {
        Tables { positions: Seq::empty(), normals: Seq::empty(), tex_coords: Seq::empty() }
    } else {
        tables_after(tables_of(records.drop_last()), records.last())
    }
}

/// The vertices of the mesh that the records describe: each face adds its
/// fan of triangles, with its corners looked up in what the file has
/// defined before it.
pub open spec fn mesh_of(records: Seq<ObjRecord>) -> Seq<Vertex>
    decreases records.len(),
{
    if records.len() == 0 {
        Seq::empty()
    } else {
        let earlier = mesh_of(records.drop_last());
        match records.last() {
            ObjRecord::Face(corners) => earlier + face_triangles(
                corners@,
                tables_of(records.drop_last()),
            ),
            _ => earlier,
        }
    }
}

/// The entry of a table that a one-based index names, or `fallback`.
fn lookup<T: Copy>(table: &Vec<T>, index: usize, fallback: T) -> (r: T)
    ensures
        r == match entry(table@, index as int) {
            Some(v) => v,
            None => fallback,
        },
{
    if 1 <= index && index <= table.len() {
        table[index - 1]
    } else {
        fallback
    }
}

/// The vertex at a corner of a face.
pub fn face_vertex(
    corner: &FaceCorner,
    positions: &Vec<Vec3>,
    normals: &Vec<Vec3>,
    tex_coords: &Vec<Vec2>,
) -> (v: Vertex)
    ensures
        v == corner_vertex(
            *corner,
            Tables { positions: positions@, normals: normals@, tex_coords: tex_coords@ },
        ),
{
    let position: Vec3 = lookup(positions, corner.position, Vec3 { x: 0, y: 0, z: 0 });
    let normal: Vec3 = match corner.normal {
        Some(i) => lookup(normals, i, Vec3 { x: 0, y: 0, z: 65536 }),
        None => Vec3 { x: 0, y: 0, z: 65536 },
    };
    let mut vertex: Vertex = Vertex::new(position, normal, Color::white());
    match corner.tex_coords {
        Some(i) => {
            vertex.tex_coords = lookup(tex_coords, i, Vec2 { x: 0, y: 0 });
        },
        None => {},
    }
    vertex
}

/// Appends the triangles of a fan over `polygon` to `vertices`.
pub fn triangulate(polygon: &Vec<Vertex>, vertices: &mut Vec<Vertex>)
    ensures
        final(vertices)@ == old(vertices)@ + fan(polygon@),
{
    if polygon.len() < 3 {
        assert(vertices@ =~= old(vertices)@ + fan(polygon@));
        return ;
    }
    let mut i: usize = 1;
    while i < polygon.len() - 1
        invariant
            3 <= polygon.len(),
            1 <= i <= polygon.len() - 1,
            vertices@.len() == old(vertices)@.len() + 3 * (i - 1),
            forall|j: int| 0 <= j < old(vertices)@.len() ==> vertices@[j] == old(vertices)@[j],
            forall|j: int|
                0 <= j < 3 * (i - 1) ==> vertices@[old(vertices)@.len() + j] == fan(polygon@)[j],
        decreases polygon.len() - i,
    {
        vertices.push(polygon[0]);
        vertices.push(polygon[i]);
        vertices.push(polygon[i + 1]);
        i += 1;
    }
    assert(vertices@ =~= old(vertices)@ + fan(polygon@));
}

/// Builds the mesh that the records of a file describe, in the order of the
/// file.
pub fn build_mesh(records: &Vec<ObjRecord>) -> (mesh: Mesh)
    ensures
        mesh.vertices@ == mesh_of(records@),
{
    let mut positions: Vec<Vec3> = Vec::new();
    let mut normals: Vec<Vec3> = Vec::new();
    let mut tex_coords: Vec<Vec2> = Vec::new();
    let mut vertices: Vec<Vertex> = Vec::new();
    let mut k: usize = 0;
    while k < records.len()
        invariant
            k <= records.len(),
            (Tables { positions: positions@, normals: normals@, tex_coords: tex_coords@ })
                == tables_of(records@.take(k as int)),
            vertices@ == mesh_of(records@.take(k as int)),
        decreases records.len() - k,
    {
        let ghost tables = Tables {
            positions: positions@,
            normals: normals@,
            tex_coords: tex_coords@,
        };
        proof {
            let done = records@.take(k as int + 1);
            assert(done.last() == records@[k as int]);
            assert(done.drop_last() =~= records@.take(k as int));
        }
        match &records[k] {
            ObjRecord::Position(p) => {
                positions.push(*p);
            },
            ObjRecord::Normal(n) => {
                normals.push(*n);
            },
            ObjRecord::TexCoords(uv) => {
                tex_coords.push(*uv);
            },
            ObjRecord::Face(corners) => {
                let mut face_vertices: Vec<Vertex> = Vec::new();
                let mut i: usize = 0;
                while i < corners.len()
                    invariant
                        i <= corners.len(),
                        face_vertices@.len() == i,
                        tables == (Tables {
                            positions: positions@,
                            normals: normals@,
                            tex_coords: tex_coords@,
                        }),
                        forall|j: int|
                            0 <= j < i ==> face_vertices@[j] == corner_vertex(corners@[j], tables),
                    decreases corners.len() - i,
                {
                    face_vertices.push(face_vertex(&corners[i], &positions, &normals, &tex_coords));
                    i += 1;
                }
                assert(face_vertices@ =~= Seq::new(
                    corners@.len(),
                    |i: int| corner_vertex(corners@[i], tables),
                ));
                triangulate(&face_vertices, &mut vertices);
            },
        }
        k += 1;
    }
    assert(records@.take(records@.len() as int) =~= records@);
    Mesh::new(vertices)
}

/// What a line of the file holds, by its first word and the number of its
/// words.
#[derive(Clone, Copy, Debug, PartialEq, Eq, Structural)]
pub enum LineKind {
    /// `v` and at least three more words.
    Position,
    /// `vn` and at least three more words.
    Normal,
    /// `vt` and at least two more words.
    TexCoords,
    /// `f`, with any number of corners.
    Face,
    /// Anything else: the line is passed over.
    Skip,
}

/// What a line holds whose first word is `tag` and which has `words`
/// words.
pub open spec fn kind_of(tag: Seq<u8>, words: int) -> LineKind {
    if tag == seq![0x76u8] && words >= 4 {
        LineKind::Position
    } else if tag == seq![0x76u8, 0x6eu8] && words >= 4 {
        LineKind::Normal
    } else if tag == seq![0x76u8, 0x74u8] && words >= 3 {
        LineKind::TexCoords
    } else if tag == seq![0x66u8] {
        LineKind::Face
    } else {
        LineKind::Skip
    }
}

/// Every byte is a decimal digit.
pub open spec fn all_digits(s: Seq<u8>) -> bool {
    forall|i: int| 0 <= i < s.len() ==> 0x30 <= #[trigger] s[i] <= 0x39
}

/// The number that a run of decimal digits stands for.
pub open spec fn digits_value(s: Seq<u8>) -> nat
    decreases s.len(),
{
    if s.len() == 0 {
        0
    } else {
        digits_value(s.drop_last()) * 10 + (s.last() - 0x30) as nat
    }
}

/// The number that a run of bytes stands for, if it is a run of at least
/// one decimal digit and the number fits.
pub open spec fn number_of(body: Seq<u8>) -> Option<usize> {
    if body.len() > 0 && all_digits(body) && digits_value(body) <= usize::MAX {
        Some(digits_value(body) as usize)
    } else {
        None
    }
}

/// The index that a word stands for: an optional plus sign and then a
/// number.
pub open spec fn index_of(text: Seq<u8>) -> Option<usize> {
    if text.len() > 0 && text[0] == 0x2b {
        number_of(text.subrange(1, text.len() as int))
    } else {
        number_of(text)
    }
}

/// The place of the first slash at or after `from`, or the length of the
/// text if there is none.
pub open spec fn next_slash(text: Seq<u8>, from: int) -> int
    decreases text.len() - from,
{
    if from >= text.len() {
        text.len() as int
    } else if text[from] == 0x2f {
        from
    } else {
        next_slash(text, from + 1)
    }
}

/// The corner that a word of a face line stands for: up to three indices
/// with slashes between them, for position, texture coordinates and normal.
/// A position that is missing or no number counts as one; texture
/// coordinates and normal may be missing, and one that is no number counts
/// as missing.
pub open spec fn corner_of(text: Seq<u8>) -> FaceCorner {
    let len = text.len() as int;
    let first = next_slash(text, 0);
    let second = next_slash(text, first + 1);
    let third = next_slash(text, second + 1);
    FaceCorner {
        position: match index_of(text.subrange(0, first)) {
            Some(i) => i,
            None => 1,
        },
        tex_coords: if first < len && first + 1 < second {
            index_of(text.subrange(first + 1, second))
        } else {
            None
        },
        normal: if first < len && second < len {
            index_of(text.subrange(second + 1, third))
        } else {
            None
        },
    }
}

/// A longer run of digits stands for no smaller a number.
proof fn lemma_digits_grow(s: Seq<u8>, k: int)
    requires
        all_digits(s),
        0 <= k <= s.len(),
    ensures
        digits_value(s.take(k)) <= digits_value(s),
    decreases s.len() - k,
{
    if k < s.len() {
        let longer = s.take(k + 1);
        assert(longer.drop_last() =~= s.take(k));
        assert(longer.last() == s[k]);
        lemma_digits_grow(s, k + 1);
    } else {
        assert(s.take(k) =~= s);
    }
}

/// What a line holds, by its first word and the number of its words.
pub fn line_kind(tag: &Vec<u8>, words: usize) -> (kind: LineKind)
    ensures
        kind == kind_of(tag@, words as int),
{
    if tag.len() == 1 && tag[0] == 0x76 && words >= 4 {
        assert(tag@ =~= seq![0x76u8]);
        LineKind::Position
    } else if tag.len() == 2 && tag[0] == 0x76 && tag[1] == 0x6e && words >= 4 {
        assert(tag@ =~= seq![0x76u8, 0x6eu8]);
        LineKind::Normal
    } else if tag.len() == 2 && tag[0] == 0x76 && tag[1] == 0x74 && words >= 3 {
        assert(tag@ =~= seq![0x76u8, 0x74u8]);
        LineKind::TexCoords
    } else if tag.len() == 1 && tag[0] == 0x66 {
        assert(tag@ =~= seq![0x66u8]);
        LineKind::Face
    } else {
        proof {
            if tag@ == seq![0x76u8] || tag@ == seq![0x66u8] {
                assert(tag@.len() == 1);
                assert(tag@[0] == seq![0x76u8][0] || tag@[0] == seq![0x66u8][0]);
            }
            if tag@ == seq![0x76u8, 0x6eu8] || tag@ == seq![0x76u8, 0x74u8] {
                assert(tag@.len() == 2);
                assert(tag@[0] == seq![0x76u8, 0x6eu8][0]);
                assert(tag@[1] == seq![0x76u8, 0x6eu8][1] || tag@[1] == seq![0x76u8, 0x74u8][1]);
            }
        }
        LineKind::Skip
    }
}

/// The index that the bytes from `start` up to `end` stand for.
fn parse_range(text: &Vec<u8>, start: usize, end: usize) -> (r: Option<usize>)
    requires
        start <= end <= text.len(),
    ensures
        r == index_of(text@.subrange(start as int, end as int)),
{
    let ghost word = text@.subrange(start as int, end as int);
    let mut i: usize = start;
    if i < end && text[i] == 0x2b {
        i += 1;
    }
    let first: usize = i;
    let ghost body = text@.subrange(first as int, end as int);
    proof {
        if first > start {
            assert(word[0] == 0x2b);
            assert(body =~= word.subrange(1, word.len() as int));
        } else {
            assert(body =~= word);
            if word.len() > 0 {
                assert(word[0] == text@[start as int]);
            }
        }
    }
    assert(index_of(word) == number_of(body));
    if i == end {
        return None;
    }
    let mut value: usize = 0;
    while i < end
        invariant
            first <= i <= end <= text.len(),
            first < end,
            body == text@.subrange(first as int, end as int),
            index_of(text@.subrange(start as int, end as int)) == number_of(body),
            all_digits(body.take(i - first)),
            value == digits_value(body.take(i - first)),
        decreases end - i,
    {
        let byte: u8 = text[i];
        proof {
            let done = body.take(i - first + 1);
            assert(done.drop_last() =~= body.take(i - first));
            assert(done.last() == byte);
        }
        if byte < 0x30 || byte > 0x39 {
            assert(body[i - first] == byte);
            return None;
        }
        let digit: usize = (byte - 0x30) as usize;
        let next: Option<usize> = match value.checked_mul(10) {
            Some(tenfold) => tenfold.checked_add(digit),
            None => None,
        };
        match next {
            Some(v) => {
                value = v;
            },
            None => {
                proof {
                    if all_digits(body) {
                        lemma_digits_grow(body, i - first + 1);
                    }
                }
                return None;
            },
        }
        i += 1;
    }
    proof {
        assert(body.take(end - first) =~= body);
    }
    Some(value)
}

/// The place of the first slash at or after `from`.
fn find_slash(text: &Vec<u8>, from: usize) -> (at: usize)
    ensures
        at == next_slash(text@, from as int),
        from <= text.len() ==> from <= at <= text.len(),
        from > text.len() ==> at == text.len(),
{
    if from >= text.len() {
        return text.len();
    }
    let mut i: usize = from;
    while i < text.len() && text[i] != 0x2f
        invariant
            from <= i <= text.len(),
            next_slash(text@, from as int) == next_slash(text@, i as int),
        decreases text.len() - i,
    {
        i += 1;
    }
    i
}

/// The index that a word stands for.
pub fn parse_index(text: &Vec<u8>) -> (r: Option<usize>)
    ensures
        r == index_of(text@),
{
    assert(text@.subrange(0, text@.len() as int) =~= text@);
    parse_range(text, 0, text.len())
}

/// The corner that a word of a face line stands for.
pub fn parse_corner(text: &Vec<u8>) -> (c: FaceCorner)
    ensures
        c == corner_of(text@),
{
    let len: usize = text.len();
    let first: usize = find_slash(text, 0);
    let position: usize = match parse_range(text, 0, first) {
        Some(i) => i,
        None => 1,
    };
    if first >= len {
        return FaceCorner { position, tex_coords: None, normal: None };
    }
    let second: usize = find_slash(text, first + 1);
    let tex_coords: Option<usize> = if first + 1 < second {
        parse_range(text, first + 1, second)
    } else {
        None
    };
    if second >= len {
        return FaceCorner { position, tex_coords, normal: None };
    }
    let third: usize = find_slash(text, second + 1);
    let normal: Option<usize> = parse_range(text, second + 1, third);
    FaceCorner { position, tex_coords, normal }
}

} // verus!
