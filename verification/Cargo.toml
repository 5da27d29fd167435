[package]
name = "uds_host"
version = "0.1.0"
edition = "2021"
publish = false

[dependencies]
chrono = "0.4"
env_logger = "0.11"
libloading = "0.8"
log = "0.4"
serde = { version = "1", features = ["derive"] }
serde_json = "1"
winreg = "0.52"
