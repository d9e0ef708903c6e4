[package]
name = "bgui"
version = "0.1.0"
edition = "2021"
publish = false

[dependencies]
bytemuck = { version = "=1.25.2", features = ["derive"] }
pollster = "=1.0.1"
wgpu = "=26.0.1"
wgpu_glyph = "=0.26.0"
winit = "=0.30.13"
