//! The bodies of the scene: the star, its planets and the ship.

pub mod planet;
pub mod ship;
pub mod star;

pub use planet::{Planet, PlanetShader};
pub use ship::Ship;
pub use star::Star;
