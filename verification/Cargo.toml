[package]
name = "kbot_control"
version = "0.1.0"
edition = "2021"
publish = false

[dependencies]
axum = "0.7"
eyre = "0.6"
futures = "0.3"
kos = "*"
reqwest = { version = "0.12", default-features = false, features = ["json"] }
serde = { version = "1", features = ["derive"] }
serde_json = "1"
tokio = { version = "1", features = ["full"] }
tonic = "0.12"
