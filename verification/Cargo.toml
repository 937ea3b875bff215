[package]
name = "tweak_core"
version = "0.1.0"
edition = "2021"
publish = false

[dependencies]
alloy-primitives = "*"
revm = { version = "*", default-features = false, features = ["std"] }
eyre = "*"
serde = { version = "*", features = ["derive"] }
serde_json = "*"
