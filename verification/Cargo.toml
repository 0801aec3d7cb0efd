[package]
name = "render_sync"
version = "0.1.0"
edition = "2021"
publish = false

[dependencies]
bevy_ecs = "=0.19.1"
bevy_transform = "=0.19.1"
bytemuck = { version = "=1.25.2", features = ["derive"] }
glam = "=0.32.1"
pollster = "=1.0.1"
wgpu = "=30.0.1"
winit = "=0.30.13"
