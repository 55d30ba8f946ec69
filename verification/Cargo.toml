[package]
name = "soyuz"
version = "0.1.0"
edition = "2021"
publish = false

[dependencies]
wgpu = "*"
winit = "*"
glam = "*"
image = "*"
bytemuck = { version = "*", features = ["derive"] }
pollster = "*"
bevy_ecs = "*"
