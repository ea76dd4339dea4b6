[package]
name = "grpc_channel"
version = "0.1.0"
edition = "2021"
publish = false

[dependencies]
http = "1"
hyper = { version = "1", features = ["client", "http2"] }
hyper-util = { version = "0.1", features = ["client-legacy", "http2", "tokio"] }
tokio = { version = "1", features = ["net", "rt"] }
tonic = { version = "*", default-features = false }
tower = { version = "0.5", features = ["util"] }
