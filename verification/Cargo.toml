[package]
name = "task_service"
version = "0.1.0"
edition = "2021"
publish = false

[dependencies]
axum = "*"
dotenvy = "*"
serde = { version = "*", features = ["derive"] }
serde_json = "*"
sqlx = { version = "*", default-features = false, features = ["runtime-tokio", "postgres"] }
tokio = { version = "*", features = ["rt-multi-thread", "net", "macros"] }
