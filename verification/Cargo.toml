[package]
name = "envision_gpu_core"
version = "0.1.0"
edition = "2021"
publish = false

[dependencies]
anyhow = "1"
env_logger = "0.10"
log = "0.4"
once_cell = "1"
pollster = "0.3"
pyo3 = { version = "0.20", features = ["auto-initialize"] }
wgpu = "0.17"
winit = "0.28"
