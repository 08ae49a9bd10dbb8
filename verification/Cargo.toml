[package]
name = "niri_float"
version = "0.1.0"
edition = "2021"
publish = false

[dependencies]
anyhow = "*"
dirs = "*"
env_logger = "*"
log = "*"
niri-ipc = "*"
regex-lite = "*"
serde = { version = "*", features = ["derive"] }
toml = "*"
