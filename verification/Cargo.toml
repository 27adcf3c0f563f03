[package]
name = "notification_feed"
version = "0.1.0"
edition = "2021"
publish = false

[dependencies]
anyhow = "1"
argon2 = "0.5"
axum = "0.7"
rand = "0.8"
serde = { version = "1", features = ["derive"] }
serde_json = "1"
sqlx = { version = "0.8", default-features = false, features = ["runtime-tokio", "postgres", "uuid", "time", "json"] }
time = { version = "0.3", features = ["serde-well-known"] }
tracing = "0.1"
uuid = { version = "1", features = ["serde"] }
