[package]
name = "transcoder"
version = "0.1.0"
edition = "2021"
publish = false

[dependencies]
anyhow = "1"
clap = { version = "3", features = ["derive"] }
erased-serde = "*"
serde = "1"
serde_json = "1"
serde-transcode = "1"
serde_yaml = "*"
