[package]
name = "cipher_io"
version = "0.1.0"
edition = "2021"
publish = false

[dependencies]
openssl = "*"
tokio = { version = "*", features = ["io-util"] }
