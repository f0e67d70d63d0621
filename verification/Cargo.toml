[package]
name = "mutiny_vss"
version = "0.1.0"
edition = "2021"
publish = false

[dependencies]
bitcoin = "*"
hex-conservative = "*"
serde = { version = "*", features = ["derive"] }
serde_json = "*"
reqwest = { version = "*", default-features = false }
