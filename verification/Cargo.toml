[package]
name = "timebreak"
version = "0.1.0"
edition = "2021"
publish = false

[dependencies]
uuid = { version = "=1.29.0", features = ["v4"] }
serde = { version = "=1.0.229", features = ["derive"] }
serde_json = "1"
rand = "=0.8.8"
thiserror = "=1.0.69"
env_logger = "=0.11.11"
rusqlite = { version = "=0.31.0", features = ["bundled"] }
