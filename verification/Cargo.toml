[package]
name = "cap_recording"
version = "0.1.0"
edition = "2021"
publish = false

[dependencies]
uuid = { version = "1", features = ["v4"] }
serde = { version = "1", features = ["derive"] }
serde_json = "1"
tokio = { version = "1", features = ["sync", "time", "rt", "process"] }
mp4 = "0.14"
ffmpeg-sidecar = "1"
