[package]
name = "gol"
version = "0.1.0"
edition = "2021"
publish = false

[dependencies]
bytemuck = { version = "1", features = ["derive"] }
pollster = "0.2"
wgpu = "0.14"
winit = "0.27"
