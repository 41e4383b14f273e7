[package]
name = "media_proxy"
version = "0.1.0"
edition = "2021"
publish = false

[dependencies]
base64 = "*"
url = "*"
axum = "*"
tokio = { version = "*", features = ["rt-multi-thread", "macros", "net"] }
reqwest = { version = "*", default-features = false, features = ["stream"] }
futures-util = "*"
hyper = "*"
tower-http = { version = "*", features = ["trace"] }
tracing-subscriber = "*"
serde = { version = "*", features = ["derive"] }
