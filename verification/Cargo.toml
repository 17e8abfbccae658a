[package]
name = "boundless_agent"
version = "0.1.0"
edition = "2021"
publish = false

[dependencies]
alloy-primitives = "1.2.0"
alloy-signer-local = { version = "1.0.12", default-features = false }
bincode = "1.3"
risc0-zkvm = { version = "3", default-features = false, features = ["std"] }
serde = { version = "1", features = ["derive"] }
serde_json = "1"
thiserror = "2"
tokio = { version = "1", default-features = false, features = ["sync", "time", "rt"] }
tracing = "0.1"
url = "2"
