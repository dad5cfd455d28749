[package]
name = "tws"
version = "0.1.0"
edition = "2021"
publish = false

[dependencies]
async_zip = { version = "=0.0.19", features = ["tokio", "deflate", "chrono"] }
axum = "=0.8.9"
axum-extra = { version = "=0.12.6", features = ["attachment"] }
chrono = "=0.4.45"
serde = { version = "=1.0.229", features = ["derive"] }
serde_json = "=1.0.151"
tokio = { version = "=1.53.2", features = ["rt-multi-thread", "macros", "io-util", "net", "sync", "time"] }
tokio-util = { version = "=0.7.19", features = ["io"] }
tracing = "=0.1.44"
tracing-subscriber = { version = "=0.3.23", features = ["env-filter"] }
typst = "=0.15.1"
typst-pdf = "=0.15.1"
uuid = { version = "=1.27.0", features = ["v4"] }
