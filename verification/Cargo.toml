[package]
name = "render_host"
version = "0.1.0"
edition = "2021"
publish = false

[dependencies]
wgpu = "25"
winit = "0.30"
pollster = "0.4"
log = "0.4"
env_logger = "0.11"
bytemuck = "1"
