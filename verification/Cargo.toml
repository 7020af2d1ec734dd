[package]
name = "fast_string"
version = "0.1.0"
edition = "2021"
publish = false

[dependencies]
anyhow = "1"
bytebuffer = "2"
serde = { version = "1", features = ["derive"] }
