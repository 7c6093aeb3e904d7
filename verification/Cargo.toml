[package]
name = "speech_capture"
version = "0.1.0"
edition = "2021"
publish = false

[dependencies]
anyhow = "=1.0.104"
chrono = "=0.4.45"
cpal = "=0.15.3"
env_logger = "=0.11.11"
futures-util = "=0.3.34"
lazy_static = "=1.5.1"
log = "=0.4.34"
reqwest = { version = "0.12", default-features = false, features = ["stream"] }
serde = { version = "=1.0.229", features = ["derive"] }
tokio = { version = "=1.54.1", features = ["sync", "rt", "rt-multi-thread", "fs", "io-util"] }
whisper-rs = "=0.16.0"
