[package]
name = "cloudflare_dyndns"
version = "0.1.0"
edition = "2021"
publish = false

[dependencies]
clap = "2"
cloudflare = "0.8"
env_logger = "0.9"
log = "0.4"
reqwest = "0.11"
serde = { version = "1", features = ["derive"] }
serde_json = "1"
tokio = { version = "1", features = ["macros", "rt-multi-thread"] }
