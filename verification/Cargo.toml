[package]
name = "raytracer"
version = "0.1.0"
edition = "2021"
publish = false

[dependencies]
bytemuck = { version = "1", features = ["derive"] }
env_logger = "*"
glam = "*"
image = { version = "*", default-features = false, features = ["png", "hdr"] }
log = "*"
pollster = "*"
wgpu = "25"
winit = "0.30"
