[package]
name = "openapiv3"
version = "0.1.0"
edition = "2021"
publish = false

[dependencies]
indexmap = { version = "2", features = ["serde"] }
serde = { version = "1", features = ["derive"] }
serde_json = "1"
