//! The vertex stage and the fragment stage.

pub mod vertex_shader;
pub mod lighting;
pub mod noise;
pub mod planet_shaders;
pub mod star_shader;
pub mod fragment_shader;
