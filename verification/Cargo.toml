[package]
name = "gridzbotz"
version = "7.0.0"
edition = "2021"
publish = false

[dependencies]
serde_json = "1"
serde = { version = "1", features = ["derive"] }
clap = { version = "4", features = ["derive"] }
chrono = "0.4"
log = "0.4"
env_logger = "0.11"
anyhow = "1"
tokio = { version = "1", features = ["full"] }
shellexpand = "3"
warp = "0.3"
