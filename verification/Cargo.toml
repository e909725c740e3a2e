[package]
name = "qa-manager-desktop"
version = "0.1.0"
edition = "2021"
publish = false

[dependencies]
env_logger = "0.11"
notify-rust = "4"
open = "5"
reqwest = { version = "0.12", default-features = false, features = ["rustls-tls"] }
serde = { version = "1", features = ["derive"] }
serde_json = "1"
tokio = { version = "1", features = ["time"] }
url = "2"
uuid = { version = "1", features = ["v4"] }
