[package]
name = "fullstack_app"
version = "0.1.0"
edition = "2021"
publish = false

[dependencies]
jsonwebtoken = "9"
serde_json = { version = "1", features = ["raw_value"] }
serde = { version = "1", features = ["derive"] }
chrono = "0.4"
sha2 = "0.10"
hex = "0.4"
uuid = { version = "1", features = ["v4"] }
validator = { version = "0.20", features = ["derive"] }
axum = "0.8"
tokio = { version = "1", features = ["full"] }
tower-http = { version = "0.6", features = ["cors", "fs", "trace", "set-header"] }
rusqlite = "0.32"
lettre = { version = "0.11", features = ["tokio1", "tokio1-native-tls"] }
tracing = "0.1"
tracing-subscriber = { version = "0.3", features = ["env-filter"] }
dotenvy = "0.15"
argon2 = "0.5"
