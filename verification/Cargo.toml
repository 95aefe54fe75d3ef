[package]
name = "spryzen"
version = "0.1.0"
edition = "2021"
publish = false

[dependencies]
ahash = "0.8"
aho-corasick = "1"
bytes = "1"
http-body-util = "0.1"
hyper = { version = "1", features = ["server", "http1", "http2"] }
hyper-util = { version = "0.1", features = ["server-auto", "tokio"] }
tokio = { version = "1", features = ["full"] }
