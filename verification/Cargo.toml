[package]
name = "flipside"
version = "0.1.0"
edition = "2021"
publish = false

[dependencies]
serde = { version = "*", features = ["derive"] }
serde_json = "*"
jsonrpsee = { version = "*", features = ["http-client", "macros"] }
tokio = { version = "*", features = ["time"] }
