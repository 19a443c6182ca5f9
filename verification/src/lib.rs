//! A software 3D rasterizer, and the small space scene that it draws, in
//! 16.16 fixed-point arithmetic.
//!
//! The pipeline maps vertices from object space to clip space, fills
//! triangles by barycentric interpolation with a depth test, and shades each
//! covered pixel. Every real-valued quantity is an `i32` counted in units of
//! 1/65536, so that each stage has an exact integer meaning that its
//! contract can state.
//!
//! Sine, cosine, arc tangent and coherent noise are not computed here.
//! Where a function needs one of them it takes a function of the caller to
//! ask, and its contract says for which arguments it asks and what it makes
//! of the answers. The view, projection and model matrices reach the
//! pipeline ready-made, in its `Uniforms`.

pub mod fixed;
pub mod color;
pub mod vector;
pub mod framebuffer;
pub mod vertex;
pub mod coverage;
pub mod fragment;
pub mod geometry;
pub mod celestial;
pub mod uniforms;
pub mod shaders;
pub mod pipeline;
mod random;
pub mod sprites;
pub mod skybox;
pub mod camera;
pub mod phase_manager;
pub mod obstacles;
pub mod warp;
