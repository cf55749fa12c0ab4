[package]
name = "learning_wpu"
version = "0.1.0"
edition = "2021"
publish = false

[dependencies]
env_logger = "*"
pollster = "*"
wgpu = "*"
winit = "*"
