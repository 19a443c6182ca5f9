//! Triangle meshes without an index buffer.

use vstd::prelude::*;
use crate::vertex::Vertex;

verus! {

/// A list of vertices of which every three in a row form one triangle.
pub struct Mesh {
    pub vertices: Vec<Vertex>,
}

impl Mesh {
    pub fn new(vertices: Vec<Vertex>) -> (m: Mesh)
        ensures
            m.vertices == vertices,
    {
        Mesh { vertices }
    }
}

} // verus!
