[package]
name = "timeline_video"
version = "0.1.0"
edition = "2021"
publish = false

[dependencies]
ffmpeg-sidecar = "2"
image = { version = "0.25", default-features = false, features = ["png"] }
reqwest = { version = "0.12", default-features = false, features = ["json"] }
serde = { version = "1", features = ["derive"] }
serde_json = "1"
