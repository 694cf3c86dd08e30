[package]
name = "gpu_widgets"
version = "0.1.0"
edition = "2021"
publish = false

[dependencies]
rand = { version = "0.8", features = ["small_rng"] }
wgpu = { version = "0.20", default-features = false, features = ["wgsl"] }
glam = "0.27"
bytemuck = { version = "1", features = ["derive"] }
pollster = "0.3"
