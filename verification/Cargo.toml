[package]
name = "keypom"
version = "0.1.0"
edition = "2021"
publish = false

[dependencies]
near-sdk = { version = "5", features = ["unit-testing"] }

[dev-dependencies]
ed25519-dalek = "2"
