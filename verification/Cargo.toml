[package]
name = "stablemint"
version = "0.1.0"
edition = "2021"
publish = false

[dependencies]
anyhow = "1"
thiserror = "2"
serde = { version = "1", features = ["derive"] }
serde_json = "1"
chrono = "0.4"
uuid = { version = "1", features = ["v4"] }
hex = "0.4"
sha2 = "0.10"
hmac = "0.12"
pbkdf2 = "0.12"
rand = "0.9"
regex = "1"
argon2 = { version = "0.5", features = ["std"] }
jsonwebtoken = "9"
tracing = "0.1"
tokio = { version = "1", features = ["sync", "time", "rt", "macros"] }
axum = "0.8"
tower = "0.5"
redis = { version = "0.29", features = ["tokio-comp", "connection-manager"] }
reqwest = { version = "0.12", default-features = false, features = ["json"] }
dotenv = "0.15"
async-trait = "0.1"
async-graphql = { version = "7", default-features = false }
