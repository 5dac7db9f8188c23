[package]
name = "nmsr"
version = "0.1.0"
edition = "2021"
publish = false

[dependencies]
base64 = "0.21"
enumset = "1"
glam = "0.24"
image = { version = "0.24", default-features = false }
serde = { version = "1", features = ["derive"] }
serde_json = "1"
strum = { version = "0.25", features = ["derive"] }
uuid = "1"
xxhash-rust = { version = "0.8", features = ["xxh3"] }
