[package]
name = "vpndetection-axum"
version = "0.1.0"
edition = "2021"
publish = false

[dependencies]
axum = "=0.8.9"
futures-util = "=0.3.34"
http = "=1.5.0"
tower-layer = "=0.3.3"
tower-service = "=0.3.3"
vpndetection = "=5.9.5"

[dev-dependencies]
reqwest = { version = "=0.13.5", default-features = false }
serde_json = "=1.0.154"
tokio = { version = "=1.54.1", features = ["rt", "net", "time"] }
tower = { version = "=0.5.3", features = ["util"] }
