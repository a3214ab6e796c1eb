[package]
name = "github_exporter"
version = "0.1.0"
edition = "2021"
publish = false

[dependencies]
anyhow = "1"
cached = { version = "*", features = ["async"] }
chrono = "0.4"
fern = "0.6"
futures = "0.3"
lazy_static = "1"
log = "0.4"
prometheus-client = "0.21"
reqwest = "0.11"
serde = { version = "1", features = ["derive"] }
serde_json = "1"
tokio = { version = "1", features = ["full"] }
