[package]
name = "cursor_oauth"
version = "0.1.0"
edition = "2021"
publish = false

[dependencies]
base64 = "0.22"
chrono = "0.4"
rand = "0.8"
serde_json = "1"
serde = { version = "1", features = ["derive"] }
lazy_static = "1"
