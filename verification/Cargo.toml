[package]
name = "index-camera-passthrough"
version = "0.1.0"
edition = "2021"
publish = false

[dependencies]
anyhow = "1"
bytemuck = { version = "1", features = ["derive"] }
cxx = "1"
image = { version = "0.25", default-features = false, features = ["png"] }
itertools = "0.14"
log = "0.4"
nalgebra = "0.33"
thiserror = "2"
vulkano = "0.35"
vulkano-shaders = "0.35"
