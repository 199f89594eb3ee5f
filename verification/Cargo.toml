[package]
name = "const_tweaker"
version = "0.1.0"
edition = "2021"
publish = false

[dependencies]
dashmap = "*"
serde = { version = "1", features = ["derive"] }
serde_json = "1"
tide = "*"
async-std = "1"
lazy_static = "1"
