[package]
name = "tsboard"
version = "0.1.0"
edition = "2021"
publish = false

[dependencies]
image = "*"
kamadak-exif = "*"
serde = { version = "*", features = ["derive"] }
serde_json = "*"
