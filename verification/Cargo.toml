[package]
name = "call_core"
version = "0.1.0"
edition = "2021"
publish = false

[dependencies]
base64 = "=0.22.1"
ed25519-dalek = { version = "=2.2.0", features = ["rand_core"] }
rand = "=0.8.8"
ringbuf = "=0.4.8"
serde_json = "=1.0.154"
serde = { version = "=1.0.229", features = ["derive"] }
chrono = "=0.4.45"
directories = "=5.0.1"
futures = "=0.3.34"
parking_lot = "=0.12.5"
tokio = { version = "=1.54.1", features = ["full"] }
tokio-tungstenite = "=0.21.0"
webrtc = "=0.11.0"
rusqlite = { version = "=0.31.0", features = ["bundled"] }
thiserror = "1"
tracing = "0.1"
tracing-subscriber = { version = "0.3", features = ["env-filter"] }
