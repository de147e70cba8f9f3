[package]
name = "client_core"
version = "0.1.0"
edition = "2021"
publish = false

[dependencies]
bevy = { version = "=0.13.2", default-features = false }
serde = { version = "=1.0.229", features = ["derive"] }
