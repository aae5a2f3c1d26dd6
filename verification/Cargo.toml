[package]
name = "lux"
version = "0.1.0"
edition = "2021"
publish = false

[dependencies]
winit = "0.28"
libloading = "0.8"
env_logger = "0.10"
