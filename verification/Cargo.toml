[package]
name = "block_scout"
version = "0.1.0"
edition = "2021"
publish = false

[dependencies]
anyhow = "=1.0.104"
hyper = "=1.11.1"
reqwest = { version = "=0.13.5", default-features = false, features = ["json", "query"] }
rmcp = { version = "=3.5.1", features = ["server"] }
serde = { version = "=1.0.229", features = ["derive"] }
serde_json = "=1.0.151"
tokio = { version = "=1.53.2", features = ["full"] }
