[package]
name = "booking_api"
version = "0.1.0"
edition = "2021"
publish = false

[dependencies]
chrono = { version = "=0.4.45", features = ["serde"] }
bcrypt = "=0.19.3"
validator = "=0.21.0"
jsonwebtoken = "=9.3.1"
serde = { version = "=1.0.229", features = ["derive"] }
serde_json = "=1.0.154"
axum = "=0.8.9"
sqlx = { version = "=0.8.6", default-features = false, features = ["postgres", "chrono", "runtime-tokio", "migrate"] }
tokio = { version = "=1.54.1", features = ["macros", "rt-multi-thread", "net"] }
tower-http = { version = "=0.6.11", features = ["cors", "trace"] }
tracing = "=0.1.44"
tracing-subscriber = "=0.3.23"
dotenvy = "=0.15.7"
deadpool-redis = { version = "*", features = ["rt_tokio_1"] }
