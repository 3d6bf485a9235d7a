[package]
name = "orphanage"
version = "0.1.0"
edition = "2021"
publish = false

[dependencies]
axum = "0.6"
bson = "2"
clap = { version = "4", features = ["derive"] }
env_logger = "0.10"
log = "0.4"
mongodb = "2"
serde = { version = "1", features = ["derive"] }
serde_json = "1"
tokio = { version = "1", features = ["full"] }
