[package]
name = "autopush_core"
version = "0.1.0"
edition = "2021"
publish = false

[dependencies]
actix-web = { version = "=4.18.1", default-features = false }
backtrace = "=0.3.76"
base64 = "=0.21.7"
bytes = "=0.4.12"
cadence = "=0.29.1"
fernet = { version = "=0.2.2", features = ["fernet_danger_timestamps"] }
futures = "=0.1.31"
httparse = "=1.10.1"
jsonwebtoken = "=8.3.0"
openssl = "=0.10.81"
serde = { version = "=1.0.229", features = ["derive"] }
serde_json = "=1.0.154"
thiserror = "=1.0.69"
tokio-core = "=0.1.18"
tokio-io = "=0.1.13"
uuid = { version = "=1.29.0", features = ["serde", "v4"] }
validator = "=0.16.1"
