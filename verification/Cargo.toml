[package]
name = "session_lock"
version = "0.1.0"
edition = "2021"
publish = false

[dependencies]
axum = "=0.8.9"
bb8 = "=0.9.1"
bb8-redis = "=0.26.0"
chrono = "=0.4.45"
rand = "=0.9.5"
redis = { version = "=1.7.1", features = ["script", "tokio-comp"] }
serde = { version = "=1.0.229", features = ["derive"] }
serde_json = "=1.0.151"
thiserror = "=2.0.21"
tokio = { version = "=1.53.2", features = ["macros", "net", "rt-multi-thread", "sync", "time"] }
tracing = "=0.1.44"
uuid = { version = "=1.27.0", features = ["v4"] }
