[package]
name = "mondrian_media"
version = "0.1.0"
edition = "2021"
publish = false

[dependencies]
lru = "*"
sha2 = "0.10"
serde = { version = "1", features = ["derive"] }
serde_json = "1"
thiserror = "2"
anyhow = "1"
parking_lot = "0.12"
tracing = "0.1"
ffmpeg-next = "*"
