[package]
name = "entity_store"
version = "0.1.0"
edition = "2021"
publish = false

[dependencies]
axum = "=0.7.9"
chrono = "=0.4.45"
dotenv = "=0.15.0"
env_logger = "=0.10.2"
log = "0.4"
mongodb = "=2.8.2"
serde = { version = "1", features = ["derive"] }
serde_json = "1"
thiserror = "=1.0.69"
tokio = { version = "1", features = ["full"] }
tower-http = { version = "0.5", features = ["cors"] }
