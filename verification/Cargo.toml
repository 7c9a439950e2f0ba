[package]
name = "interactions"
version = "0.1.0"
edition = "2021"
publish = false

[dependencies]
ed25519-dalek = "*"
serde_json = "*"

[dev-dependencies]
hex = "*"
