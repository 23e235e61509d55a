[package]
name = "zkmatrix_pool_protocol"
version = "0.2.0"
edition = "2021"
publish = false

[dependencies]
anyhow = "=1.0.104"
bytes = "=1.12.1"
hex = "=0.4.3"
json-rpc-types = "=1.3.4"
semver = "=1.0.28"
serde = { version = "=1.0.229", features = ["derive"] }
serde_json = { version = "=1.0.154", features = ["preserve_order"] }
tokio-util = { version = "=0.7.20", features = ["codec"] }
