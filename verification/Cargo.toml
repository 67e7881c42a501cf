[package]
name = "interaction_handler"
version = "0.1.0"
edition = "2021"
publish = false

[dependencies]
anyhow = "1"
once_cell = "1"
phf = "0.11"
rand = "0.8"
serde = "1"
tokio = { version = "1", features = ["rt", "sync"] }
tracing = "0.1"
twilight-cache-inmemory = { version = "0.15", default-features = false }
twilight-gateway = { version = "0.15", default-features = false }
twilight-http = { version = "0.15", default-features = false }
twilight-model = "0.15"
twilight-util = { version = "0.15", features = ["builder"] }
