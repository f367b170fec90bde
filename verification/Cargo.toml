[package]
name = "particle_system"
version = "0.1.0"
edition = "2021"
publish = false

[dependencies]
bytemuck = { version = "1", features = ["derive"] }
glam = "0.30"
pollster = "0.4"
wgpu = "26"
winit = "0.30"
