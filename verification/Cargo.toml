[package]
name = "lav"
version = "0.1.0"
edition = "2021"
publish = false

[dependencies]
rlua = "0.19"
wgpu = { version = "0.16", features = ["spirv"] }
winit = "0.28"
