[package]
name = "frameflow"
version = "0.1.0"
edition = "2021"
publish = false

[dependencies]
anyhow = "1"
ash = "0.37"
env_logger = "0.11"
glam = "0.29"
gpu-allocator = "0.25"
log = "0.4"
raw-window-handle = "0.6"
serde = { version = "1", features = ["derive"] }
toml = "0.8"
winit = "0.30"
