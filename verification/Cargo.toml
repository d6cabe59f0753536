[package]
name = "codegen_bridge"
version = "0.1.0"
edition = "2021"
publish = false

[dependencies]
ignore = "0.4"
napi = { version = "2", features = ["async"] }
napi-derive = "2"
serde = { version = "1", features = ["derive"] }
tokio = { version = "1", features = ["process"] }
