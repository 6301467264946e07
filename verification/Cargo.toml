[package]
name = "metaballs"
version = "0.1.0"
edition = "2021"
publish = false

[dependencies]
env_logger = "=0.11.11"
pollster = "=1.0.1"
wgpu = { version = "=30.0.1", features = ["spirv"] }
winit = "=0.30.13"
