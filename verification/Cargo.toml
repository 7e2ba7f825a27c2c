[package]
name = "titanic"
version = "0.1.0"
edition = "2021"
publish = false

[dependencies]
jsonwebtoken = "9"
serde_json = "1"
base64 = "0.22"
sanitize-filename = "0.5"
serde = { version = "1", features = ["derive"] }
anyhow = "1"
thiserror = "1"
axum = { version = "0.7", features = ["multipart"] }
tokio = { version = "1", features = ["full"] }
reqwest = { version = "0.12", default-features = false }
tower-http = { version = "0.5", features = ["cors", "limit"] }
tracing = "0.1"
tracing-subscriber = "0.3"
chrono = { version = "0.4", features = ["serde"] }
dotenvy = "0.15"
sentry = { version = "0.34", default-features = false, features = ["backtrace", "contexts", "panic"] }
