[package]
name = "ping_server"
version = "0.1.0"
edition = "2021"
publish = false

[dependencies]
chrono = "0.4"
env_logger = "*"
log = "0.4"
rocket = "0.5"
serde = { version = "1", features = ["derive"] }
serde_json = "1"
tokio = { version = "1", features = ["full"] }
