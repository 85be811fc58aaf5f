[package]
name = "kiro_endpoint"
version = "0.1.0"
edition = "2021"
publish = false

[dependencies]
reqwest = { version = "0.12", default-features = false }
uuid = { version = "1", features = ["v4"] }
