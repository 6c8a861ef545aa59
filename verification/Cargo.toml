[package]
name = "apriltag_video_tracker"
version = "0.1.0"
edition = "2021"
publish = false

[dependencies]
apriltag = "*"
clap = { version = "*", features = ["derive"] }
ffmpeg-next = "*"
serde = { version = "*", features = ["derive"] }
serde_json = "*"
toml = "*"
