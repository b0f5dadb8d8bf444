[package]
name = "rendium"
version = "0.1.0"
edition = "2021"
publish = false

[dependencies]
anyhow = "*"
bytemuck = "*"
env_logger = "*"
png = "*"
pollster = "*"
wgpu = "*"
winit = "*"
