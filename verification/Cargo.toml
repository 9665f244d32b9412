[package]
name = "aeroxe_backend"
version = "0.1.0"
edition = "2021"
publish = false

[dependencies]
uuid = { version = "1", features = ["v4"] }
chrono = "0.4"
tokio = { version = "1", features = ["full"] }
axum = { version = "0.8", features = ["ws"] }
serde = { version = "1", features = ["derive"] }
serde_json = "1"
async-nats = "*"
redis = { version = "*", features = ["tokio-comp", "connection-manager"] }
sea-orm = { version = "1", default-features = false, features = ["runtime-tokio-rustls", "sqlx-postgres", "macros", "with-json", "with-chrono"] }
prometheus = "*"
jsonwebtoken = "9"
tracing = "0.1"
tracing-subscriber = { version = "0.3", features = ["env-filter", "json"] }
anyhow = "1"
dotenvy = "*"
futures = "0.3"
tower = "0.5"
tower-http = { version = "*", features = ["cors", "trace"] }
rust_decimal = "1"
