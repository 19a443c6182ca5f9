//! Meshes and the pieces that build them.

pub mod mesh;
pub mod sphere;
pub mod obj_loader;
pub mod cube;
