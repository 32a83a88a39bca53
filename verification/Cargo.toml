[package]
name = "fly_camera"
version = "0.1.0"
edition = "2021"
publish = false

[dependencies]
bytemuck = { version = "1", features = ["derive"] }
cgmath = "0.18"
env_logger = "0.9"
obj-rs = "0.7"
pollster = "0.2"
rayon = "1"
wgpu = "0.11"
winit = "0.25"
