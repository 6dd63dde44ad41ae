[package]
name = "media_relay"
version = "0.1.0"
edition = "2021"
publish = false

[dependencies]
blake3 = "1"
axum = { version = "0.6", features = ["multipart"] }
eyre = "0.6"
tokio = { version = "1", features = ["macros", "rt-multi-thread", "fs", "io-util"] }
tokio-util = { version = "0.7", features = ["io"] }
rust-s3 = "0.33"
mozjpeg = "0.10"
rexiv2 = "0.10"
