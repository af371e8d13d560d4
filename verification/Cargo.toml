[package]
name = "gravlume_render"
version = "0.1.0"
edition = "2021"
publish = false

[dependencies]
wgpu = { version = "30", default-features = false, features = ["wgsl", "vulkan"] }
thiserror = "2"
pollster = "0.4"
num-traits = "0.2"
