[package]
name = "users_api"
version = "0.1.0"
edition = "2021"
publish = false

[dependencies]
anyhow = "*"
axum = "*"
chrono = { version = "*", features = ["serde"] }
dotenvy = "*"
serde = { version = "*", features = ["derive"] }
sqlx = { version = "*", features = ["sqlite", "runtime-tokio", "uuid", "chrono"] }
tokio = { version = "*", features = ["full"] }
tower-http = { version = "*", features = ["fs"] }
tracing = "*"
tracing-subscriber = { version = "*", features = ["env-filter"] }
uuid = { version = "*", features = ["v4", "serde"] }
