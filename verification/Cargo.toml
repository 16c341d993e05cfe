[package]
name = "descriptors"
version = "0.1.0"
edition = "2021"
publish = false

[dependencies]
indexmap = "2"
secp256k1 = "0.28"
serde = { version = "1", features = ["derive"] }
