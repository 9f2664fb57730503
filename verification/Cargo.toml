[package]
name = "trading_platform"
version = "0.1.0"
edition = "2021"
publish = false

[dependencies]
serde = { version = "1", features = ["derive"] }
serde_json = "1"
thiserror = "1"
log = "0.4"
env_logger = "0.11"
anyhow = "1"
tokio = { version = "1", features = ["full"] }
async-trait = "0.1"
futures = "0.3"
futures-util = "0.3"
tokio-tungstenite = "*"
tokio-websockets = { version = "*", features = ["client", "sha1_smol", "fastrand"] }
url = "2"
uuid = { version = "1", features = ["v4"] }
rust_decimal = { version = "1", features = ["serde-with-float"] }
config = { version = "*", default-features = false, features = ["toml"] }
zmq = "*"
