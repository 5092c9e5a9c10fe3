[package]
name = "rebuild_from_itunes_control"
version = "0.1.0"
edition = "2021"
publish = false

[dependencies]
id3 = "*"
mp4ameta = "*"
rusqlite = { version = "*", features = ["bundled"] }
clap = { version = "*", features = ["derive"] }
anyhow = "*"
