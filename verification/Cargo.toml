[package]
name = "lumawave"
version = "0.1.0"
edition = "2021"
publish = false

[dependencies]
anyhow = "1"
thiserror = "2"
serde = { version = "1", features = ["derive"] }
serde_json = "1"
rustfft = "6"
crossbeam-channel = "0.5"
symphonia = { version = "0.5", features = ["mp3"] }
tracing = "0.1"
tracing-subscriber = { version = "0.3", features = ["env-filter"] }
cpal = "0.15"
