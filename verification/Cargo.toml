[package]
name = "hectic"
version = "0.1.0"
edition = "2021"
publish = false

[dependencies]
cgmath = "=0.17.0"
env_logger = "=0.7.1"
log = "=0.4.35"
rand = "=0.7.3"
serde = { version = "=1.0.229", features = ["derive"] }
specs = "=0.16.1"
toml = "=0.5.11"
winit = { version = "=0.22.2", features = ["serde"] }
