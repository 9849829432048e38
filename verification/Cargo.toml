[package]
name = "uptime_monitor"
version = "0.1.0"
edition = "2021"
publish = false

[dependencies]
axum = "*"
chrono = { version = "=0.4.45", features = ["serde"] }
dotenvy = "*"
reqwest = { version = "*", default-features = false, features = ["json"] }
serde = { version = "*", features = ["derive"] }
serde_json = "*"
sqlx = { version = "*", default-features = false, features = ["runtime-tokio", "postgres", "chrono", "macros"] }
tokio = { version = "*", features = ["rt-multi-thread", "macros", "time", "net"] }
tower = "*"
tower-http = { version = "*", features = ["fs", "trace"] }
tracing = "*"
tracing-subscriber = "*"
