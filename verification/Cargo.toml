[package]
name = "rs_http_request"
version = "0.1.0"
edition = "2021"
publish = false

[dependencies]
base64 = "0.22"
chrono = "0.4"
env_logger = "0.11"
log = "0.4"
reqwest = { version = "0.12", features = ["json", "stream"] }
serde_json = "1"
serde_urlencoded = "0.7"
tokio = { version = "1", features = ["fs", "macros", "rt-multi-thread", "time"] }
tokio-util = { version = "0.7", features = ["codec"] }
