[package]
name = "bsky_rmcp"
version = "0.1.0"
edition = "2021"
publish = false

[dependencies]
anyhow = "=1.0.104"
atrium-api = "=0.25.8"
bsky-sdk = "=0.1.24"
chrono = "=0.4.45"
rmcp = { version = "=3.5.1", features = ["server", "transport-io", "schemars"] }
schemars = "=1.2.2"
serde = { version = "=1.0.229", features = ["derive"] }
serde_json = "=1.0.151"
tokio = { version = "=1.53.2", features = ["rt-multi-thread", "macros", "io-std"] }
tracing = "=0.1.44"
tracing-subscriber = { version = "=0.3.23", features = ["env-filter", "fmt"] }
