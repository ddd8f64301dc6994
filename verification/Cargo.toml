[package]
name = "jsonrpc_utils"
version = "0.1.0"
edition = "2021"
publish = false

[dependencies]
anyhow = "1"
axum = { version = "0.8", default-features = false, features = ["ws", "http1", "tokio", "json"] }
futures-core = "0.3"
futures-util = { version = "0.3", features = ["sink"] }
hex = "0.4"
jsonrpc-core = "18"
pin-project-lite = "0.2"
proc-macro2 = "1"
quote = "1"
rand = "0.8"
reqwest = { version = "0.12", default-features = false, features = ["json", "blocking"] }
serde = "1"
serde_json = { version = "1", features = ["raw_value"] }
syn = { version = "2", features = ["full"] }
tokio = { version = "1", features = ["rt", "sync", "time", "macros"] }
