[package]
name = "phog"
version = "0.1.0"
edition = "2021"
publish = false

[dependencies]
clap = { version = "=4.6.7", features = ["derive"] }
tokio = { version = "=1.53.2", features = ["rt-multi-thread", "sync", "macros"] }
kamadak-exif = "=0.6.1"
image = "*"
