[package]
name = "bismuth"
version = "0.1.0"
edition = "2021"
publish = false

[dependencies]
bevy_ecs = "=0.12.1"
bevy_math = "=0.12.1"
bytemuck = { version = "1", features = ["derive"] }
env_logger = "=0.10.2"
gltf = "=1.4.1"
image = "=0.24.9"
log = "0.4"
pollster = "=0.3.0"
wgpu = "=0.17.2"
winit = "=0.28.7"
