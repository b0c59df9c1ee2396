[package]
name = "h2s_bench"
version = "0.1.0"
edition = "2021"
publish = false

[dependencies]
anyhow = "1"
bytes = "1"
futures = "0.3"
h2 = "0.3"
http = "0.2"
hyper = { version = "0.14", features = ["server", "http2", "runtime"] }
openssl = "0.10"
tokio = { version = "1", features = ["full"] }
tokio-openssl = "0.6"
