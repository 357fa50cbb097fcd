[package]
name = "siem_backend"
version = "0.1.0"
edition = "2021"
publish = false

[dependencies]
axum = "0.7"
chrono = "0.4"
dotenvy = "0.15"
redis = { version = "0.27", features = ["tokio-comp"] }
rskafka = { version = "0.5", default-features = false }
serde = { version = "1", features = ["derive"] }
serde_json = "1"
sqlx = { version = "0.8", default-features = false, features = ["runtime-tokio", "sqlite", "derive"] }
tokio = { version = "1", features = ["macros", "rt-multi-thread", "time", "net"] }
uuid = { version = "1", features = ["v4"] }
