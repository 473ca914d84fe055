[package]
name = "axum_askama_template"
version = "0.1.0"
edition = "2021"
publish = false

[dependencies]
askama = "*"
axum = "*"
bcrypt = "*"
dotenvy = "*"
serde = { version = "1", features = ["derive"] }
sqlx = { version = "*", default-features = false, features = ["sqlite", "runtime-tokio", "migrate"] }
tokio = { version = "1", features = ["full"] }
tower-http = { version = "*", features = ["fs", "trace"] }
tracing = "0.1"
tracing-subscriber = { version = "0.3", features = ["env-filter"] }
validator = "*"
