[package]
name = "user_lifecycle"
version = "0.1.0"
edition = "2021"
publish = false

[dependencies]
bcrypt = "=0.19.3"
uuid = { version = "=1.27.0", features = ["v4"] }
chrono = "=0.4.45"
axum = "=0.8.9"
tokio = { version = "=1.53.2", features = ["full"] }
serde = { version = "=1.0.229", features = ["derive"] }
serde_json = "=1.0.151"
diesel = { version = "=2.3.14", features = ["postgres", "r2d2", "chrono"] }
r2d2 = "=0.8.10"
redis = "=1.7.1"
dotenvy = "=0.15.7"
envconfig = "=0.11.1"
tracing = "=0.1.44"
tracing-subscriber = { version = "=0.3.23", features = ["env-filter"] }
validator = { version = "=0.21.0", features = ["derive"] }
