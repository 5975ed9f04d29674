[package]
name = "doppio"
version = "0.1.0"
edition = "2021"
publish = false

[dependencies]
curve25519-dalek = { version = "4", default-features = false, features = ["legacy_compatibility"] }
