[package]
name = "contextvm_sdk"
version = "0.1.0"
edition = "2021"
publish = false

[dependencies]
lru = "=0.16.4"
nostr-sdk = { version = "=0.43.0", features = ["nip44", "nip59"] }
rmcp = { version = "0.16", features = ["client", "server", "transport-worker"] }
serde = { version = "=1.0.229", features = ["derive"] }
serde_json = "=1.0.154"
tokio = { version = "=1.54.1", features = ["full"] }
tracing = "=0.1.44"
tracing-subscriber = { version = "=0.3.23", features = ["env-filter"] }
