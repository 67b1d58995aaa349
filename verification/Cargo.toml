[package]
name = "acme_tls"
version = "0.1.0"
edition = "2021"
publish = false

[dependencies]
rustls-pemfile = "1"
tokio = { version = "1", features = ["rt-multi-thread", "net", "time", "sync", "macros", "io-util"] }
tokio-rustls = "0.24"
parking_lot = "0.12"
futures-util = "0.3"
tracing = "0.1"
