[package]
name = "gpu_context"
version = "0.1.0"
edition = "2021"

[dependencies]
wgpu = { version = "22", default-features = false }
