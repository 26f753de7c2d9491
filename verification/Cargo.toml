[package]
name = "capcom"
version = "0.1.0"
edition = "2021"
publish = false

[dependencies]
axum = "=0.7.9"
reqwest = { version = "=0.12.28", default-features = false, features = ["json", "rustls-tls"] }
serde = { version = "=1.0.229", features = ["derive"] }
serde_json = "=1.0.154"
tokio = { version = "=1.54.1", features = ["process", "time", "rt", "macros", "sync"] }
tracing = "=0.1.44"
uuid = { version = "=1.29.0", features = ["v4"] }
