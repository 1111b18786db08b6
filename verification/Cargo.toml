[package]
name = "ghsa_feed"
version = "0.1.0"
edition = "2021"
publish = false

[dependencies]
anyhow = "1"
chrono = "0.4"
dotenvy = "0.15"
reqwest = { version = "0.12", features = ["blocking", "json"] }
serde_json = "1"
