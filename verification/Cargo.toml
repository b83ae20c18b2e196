[package]
name = "ztp_r"
version = "0.1.0"
edition = "2021"
publish = false

[dependencies]
unicode-segmentation = "1"
validator = "*"
axum = "*"
tokio = { version = "1", features = ["full"] }
sqlx = { version = "*", default-features = false, features = ["runtime-tokio", "postgres", "uuid"] }
tower-http = { version = "*", features = ["trace"] }
tracing = "0.1"
uuid = { version = "1", features = ["v4"] }
secrecy = "*"
serde = { version = "1", features = ["derive"] }
