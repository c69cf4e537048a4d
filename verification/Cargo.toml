[package]
name = "trick_frame"
version = "0.1.0"
edition = "2021"
publish = false

[dependencies]
bytemuck = "1"
env_logger = "0.11"
pollster = "0.4"
wgpu = "26"
winit = "0.30"
