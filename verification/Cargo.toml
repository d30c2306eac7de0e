[package]
name = "chip8"
version = "0.1.0"
edition = "2021"
publish = false

[dependencies]
rand = "=0.8.8"
log = "=0.4.34"
env_logger = "=0.10.2"
thiserror = "=1.0.69"
serde = { version = "=1.0.229", features = ["derive"] }
toml = "=0.8.23"
clap = { version = "=4.6.7", features = ["derive"] }
image = { version = "=0.24.9", default-features = false, features = ["png"] }
winit = { version = "=0.28.7", default-features = false, features = ["x11"] }
pixels = "0.13"
