[package]
name = "sync_serve"
version = "0.1.0"
edition = "2021"
publish = false

[dependencies]
hyper = { version = "0.14", features = ["server", "http1", "http2", "tcp", "runtime"] }
tokio = { version = "1", features = ["rt", "net", "time"] }
