[package]
name = "forward_renderer"
version = "0.1.0"
edition = "2021"
publish = false

[dependencies]
anyhow = "1.0"
bytemuck = "1.12"
cgmath = "0.18"
ddsfile = "0.5"
env_logger = { version = "0.9", default-features = false }
image = { version = "0.24", default-features = false, features = ["png", "jpeg"] }
instant = "0.1"
pollster = "0.2"
tobj = { version = "3.2", features = ["async"] }
wgpu = "0.14"
winit = { version = "0.27", default-features = false, features = ["x11"] }
