[package]
name = "guest_agent"
version = "0.1.0"
edition = "2021"
publish = false

[dependencies]
axum = "0.7"
hyper-util = { version = "0.1", features = ["tokio", "server-auto", "service"] }
prost = "0.13"
serde = { version = "1", features = ["derive"] }
tokio = { version = "1", features = ["macros", "rt", "sync", "time"] }
tokio-stream = "0.1"
tokio-vsock = "*"
tonic = "0.12"
tower-service = "0.3"
