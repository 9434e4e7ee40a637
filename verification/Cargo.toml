[package]
name = "clutch"
version = "0.1.0"
edition = "2021"
publish = false

[dependencies]
base64 = "0.22"
lava_torrent = "*"
uuid = { version = "1", features = ["v4"] }
