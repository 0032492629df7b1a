[package]
name = "webgl_resources"
version = "0.1.0"
edition = "2021"
publish = false

[dependencies]
ipc-channel = "=0.23.1"
rust-webvr-api = "=0.17.0"
serde = { version = "=1.0.229", features = ["derive"] }
time = "=0.1.45"
