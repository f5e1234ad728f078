[package]
name = "gravatar_api"
version = "0.1.0"
edition = "2021"
publish = false

[dependencies]
sha2 = "0.10"
validator = { version = "*", features = ["derive"] }
axum = "*"
axum-valid = "*"
dotenv = "*"
reqwest = "*"
serde = { version = "*", features = ["derive"] }
serde_json = "*"
tokio = { version = "*", features = ["full"] }
