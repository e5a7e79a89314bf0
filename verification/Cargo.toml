[package]
name = "gridlife"
version = "0.1.0"
edition = "2021"
publish = false

[dependencies]
bytemuck = { version = "1", features = ["derive"] }
env_logger = { version = "0.10", default-features = false }
pollster = "0.3"
rand = "0.8"
