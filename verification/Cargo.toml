[package]
name = "prediction_api"
version = "0.1.0"
edition = "2021"
publish = false

[dependencies]
axum = "*"
env_logger = "*"
log = "*"
serde = { version = "*", features = ["derive"] }
sqlx = { version = "*", features = ["runtime-tokio", "postgres"] }
tokio = { version = "*", features = ["full"] }
