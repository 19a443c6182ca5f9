[package]
name = "soft_renderer"
version = "0.1.0"
edition = "2021"
publish = false

[dependencies]
nalgebra-glm = "0.19"
noise = { version = "0.9", default-features = false }
rand = "0.8"
minifb = "0.27"
