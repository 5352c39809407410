[package]
name = "image_api"
version = "0.1.0"
edition = "2021"
publish = false

[dependencies]
axum = { version = "=0.7.9", features = ["multipart"] }
axum-extra = { version = "=0.9.6", features = ["typed-header"] }
axum-macros = "=0.4.2"
tokio = { version = "=1.54.1", features = ["full"] }
mongodb = "=2.8.2"
bson = "=2.15.0"
jsonwebtoken = "=9.3.1"
bcrypt = "=0.15.1"
serde = { version = "=1.0.229", features = ["derive"] }
serde_json = "=1.0.154"
toml = "=0.8.23"
chrono = "=0.4.45"
futures = "=0.3.34"
futures-util = { version = "=0.3.34", features = ["io"] }
tokio-util = { version = "=0.7.20", features = ["io", "codec"] }
bytes = "=1.12.1"
mime = "=0.3.17"
base64 = "=0.21.7"
validator = { version = "=0.16.1", features = ["derive"] }
image = { version = "=0.24.9", default-features = false, features = ["png"] }
