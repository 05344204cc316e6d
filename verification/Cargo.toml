[package]
name = "auth_gate"
version = "0.1.0"
edition = "2021"
publish = false

[dependencies]
uuid = { version = "=1.27.0", features = ["serde"] }
serde = { version = "=1.0.229", features = ["derive"] }
axum = "=0.8.9"
axum-extra = { version = "=0.12.6", features = ["cookie"] }
redis = { version = "=1.7.1", features = ["tokio-comp"] }
tokio = { version = "=1.53.2", features = ["rt-multi-thread", "macros"] }
