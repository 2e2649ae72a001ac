[package]
name = "fractal_renderer"
version = "0.1.0"
edition = "2021"
publish = false

[dependencies]
bytemuck = { version = "1", features = ["derive"] }
egui = "0.29"
egui-wgpu = "0.29"
egui-winit = { version = "0.29", default-features = false }
env_logger = "0.11"
glam = { version = "0.29", features = ["bytemuck"] }
pollster = "0.3"
wgpu = "22"
winit = "0.30"
