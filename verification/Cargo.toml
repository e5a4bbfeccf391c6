[package]
name = "futureyou"
version = "0.1.0"
edition = "2021"
publish = false

[dependencies]
axum = "0.8"
bson = { version = "2", features = ["chrono-0_4"] }
chrono = "0.4"
dotenvy = "0.15"
futures = "0.3"
mongodb = "3"
rand = "0.9"
redis = { version = "*", features = ["tokio-comp"] }
resend-rs = "*"
serde = { version = "1", features = ["derive"] }
serde_json = "1"
svix = "1"
thiserror = "2"
tokio = { version = "1", features = ["full"] }
tower-http = { version = "0.6", features = ["cors", "trace"] }
tracing = "0.1"
tracing-subscriber = { version = "0.3", features = ["env-filter"] }
uuid = { version = "1", features = ["v7"] }
validator = "0.20"
