[package]
name = "http_handshake"
version = "0.1.0"
edition = "2021"
publish = false

[dependencies]
futures = "0.1"
http-bytes = "*"
tokio-io = "0.1"
