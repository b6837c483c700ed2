[package]
name = "samsunghvac"
version = "0.1.0"
edition = "2021"
publish = false

[dependencies]
heapless = "0.8"
ux = "0.1"
bytes = "1"
tokio = { version = "1", features = ["rt", "macros", "net", "io-util", "sync", "time"] }
tokio-serial = { version = "5", default-features = false }
serialport = { version = "4", default-features = false }
tokio-stream = { version = "0.1", features = ["sync"] }
futures = "0.3"
async-stream = "0.3"
pin-project = "1"
structopt = "0.3"
thiserror = "1"
derive_more = { version = "1", features = ["full"] }
log = "0.4"
env_logger = "0.11"
serde = { version = "1", features = ["derive"] }
serde_json = "1"
toml = "0.8"
rumqttc = "0.24"
axum = "0.7"
