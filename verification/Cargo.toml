[package]
name = "rust_vad"
version = "0.1.0"
edition = "2021"
publish = false

[dependencies]
base64 = "=0.22.1"
serde = { version = "=1.0.229", features = ["derive"] }
serde_json = "=1.0.154"
tokio = { version = "=1.54.1", features = ["rt-multi-thread", "macros", "sync", "net"] }
axum = { version = "=0.8.9", features = ["ws"] }
futures = "=0.3.34"
reqwest = { version = "=0.12.28", default-features = false }
tracing = "=0.1.44"
ndarray = "=0.16.1"
num-traits = "=0.2.19"
config = { version = "=0.15.27", default-features = false, features = ["toml"] }
ort = { version = "=2.0.0-rc.9", default-features = false, features = ["ndarray"] }
ort-sys = { version = "=2.0.0-rc.9", default-features = false }
whisper-rs = "=0.15.1"
rodio = { version = "=0.20.1", default-features = false }
