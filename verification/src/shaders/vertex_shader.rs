//! The vertex stage: object space to clip space.

use vstd::prelude::*;
use crate::fixed::{floor_sqrt, lemma_floor_sqrt, lemma_floor_sqrt_unique, lemma_trunc_div_exact, ONE};
use crate::uniforms::Uniforms;
use crate::vector::{
    identity, lemma_identity_is_neutral, matrix_product, norm_squared, normalized, rotated,
    transformed, Mat4, Vec3, Vec4,
};
use crate::vertex::Vertex;

verus! {

/// The matrix that takes object space to clip space: projection times view
/// times model.
pub open spec fn mvp(u: Uniforms) -> Mat4 {
    matrix_product(matrix_product(u.projection_matrix, u.view_matrix), u.model_matrix)
}

/// The vertex after the vertex stage: its position in homogeneous clip
/// space, not divided by `w`, and its normal turned by the upper-left 3x3
/// block of the model matrix and scaled to unit length. The other fields
/// are those of the input.
pub open spec fn shaded_vertex(v: Vertex, u: Uniforms) -> Vertex {
    Vertex {
        transformed_position: transformed(
            mvp(u),
            Vec4 { x: v.position.x, y: v.position.y, z: v.position.z, w: ONE },
        ),
        transformed_normal: normalized(rotated(u.model_matrix, v.normal)),
        ..v
    }
}

/// Runs the vertex stage on one vertex. The input is not changed.
pub fn vertex_shader(vertex: &Vertex, uniforms: &Uniforms) -> (out: Vertex)
    ensures
        out == shaded_vertex(*vertex, *uniforms),
{
    let position: Vec4 = Vec4 {
        x: vertex.position.x,
        y: vertex.position.y,
        z: vertex.position.z,
        w: 65536,
    };
    let mvp: Mat4 = uniforms.projection_matrix.times(&uniforms.view_matrix).times(
        &uniforms.model_matrix,
    );
    let turned: Vec3 = uniforms.model_matrix.rotate(&vertex.normal);
    Vertex {
        position: vertex.position,
        normal: vertex.normal,
        tex_coords: vertex.tex_coords,
        color: vertex.color,
        transformed_position: mvp.transform(&position),
        transformed_normal: turned.normalize(),
    }
}

/// A vector whose length is exactly one is its own normalization.
pub proof fn lemma_unit_vector_is_normalized(n: Vec3)
    requires
        norm_squared(n) == ONE * ONE,
    ensures
        normalized(n) == n,
{
    let wide: nat = norm_squared(n) * 0x1_0000_0000;
    assert(ONE * ONE == 0x1_0000_0000) by (nonlinear_arith);
    assert(0x1_0000_0000 * 0x1_0000_0000 == wide) by (nonlinear_arith)
        requires
            wide == 0x1_0000_0000 * 0x1_0000_0000nat,
    ;
    assert((0x1_0000_0000 + 1) * (0x1_0000_0000 + 1) > 0x1_0000_0000 * 0x1_0000_0000)
        by (nonlinear_arith);
    lemma_floor_sqrt(wide);
    lemma_floor_sqrt_unique(0x1_0000_0000, floor_sqrt(wide) as int, wide as int);
    lemma_trunc_div_exact(n.x as int, 0x1_0000_0000);
    lemma_trunc_div_exact(n.y as int, 0x1_0000_0000);
    lemma_trunc_div_exact(n.z as int, 0x1_0000_0000);
}

/// With identity model, view and projection matrices the vertex stage
/// returns the position unchanged with `w` equal to one, and the normal
/// scaled to unit length: a normal of length one comes back as it is.
pub proof fn lemma_identity_round_trip(v: Vertex, u: Uniforms)
    requires
        u.model_matrix == identity(),
        u.view_matrix == identity(),
        u.projection_matrix == identity(),
    ensures
        shaded_vertex(v, u).transformed_position == (Vec4 {
            x: v.position.x,
            y: v.position.y,
            z: v.position.z,
            w: ONE,
        }),
        shaded_vertex(v, u).transformed_normal == normalized(v.normal),
        norm_squared(v.normal) == ONE * ONE ==> shaded_vertex(v, u).transformed_normal == v.normal,
{
    let p = Vec4 { x: v.position.x, y: v.position.y, z: v.position.z, w: ONE };
    lemma_identity_is_neutral(p, identity());
    lemma_identity_is_neutral(Vec4 { x: v.normal.x, y: v.normal.y, z: v.normal.z, w: 0 }, identity());
    if norm_squared(v.normal) == ONE * ONE {
        lemma_unit_vector_is_normalized(v.normal);
    }
}

} // verus!
