[package]
name = "light_raytracer"
version = "0.1.0"
edition = "2021"
publish = false

[dependencies]
bytemuck = { version = "*", features = ["derive"] }
egui = "*"
egui-wgpu = "*"
egui-winit = "*"
env_logger = "*"
glam = "*"
gltf = "*"
image = { version = "*", default-features = false, features = ["hdr"] }
log = "*"
pollster = "*"
wgpu = "*"
winit = "*"
