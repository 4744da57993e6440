[package]
name = "tile_pipeline"
version = "0.1.0"
edition = "2021"
publish = false

[dependencies]
rand = "0.8"
rand_chacha = "0.3"
clap = { version = "4", features = ["derive"] }
env_logger = "0.11"
winit = "0.30"
pixels = "0.15"
