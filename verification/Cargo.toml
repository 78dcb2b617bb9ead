[package]
name = "crystallib"
version = "0.1.0"
edition = "2021"
publish = false

[dependencies]
cgmath = { version = "0.18", features = ["serde"] }
log = "0.4"
serde = { version = "1", features = ["derive"] }
serde_json = "1"
toml = "0.8"
