[package]
name = "pact"
version = "0.1.0"
edition = "2021"
publish = false

[dependencies]
regex = "=1.13.1"
jsonwebtoken = { version = "=11.1.0", features = ["rust_crypto"] }
uuid = { version = "=1.29.0", features = ["v4"] }
chrono = "=0.4.45"
serde = { version = "=1.0.229", features = ["derive"] }
serde_json = "=1.0.154"
toml = "=1.1.8"
clap = { version = "=4.6.7", features = ["derive"] }
anyhow = "=1.0.104"
tokio = { version = "=1.54.1", features = ["full"] }
dirs = "=7.0.0"
reqwest = { version = "=0.13.5", default-features = false, features = ["json"] }
