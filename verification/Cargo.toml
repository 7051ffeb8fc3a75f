[package]
name = "sftp_gateway"
version = "0.1.0"
edition = "2021"
publish = false

[dependencies]
tokio = { version = "1", features = ["rt-multi-thread", "net", "io-util", "macros"] }
async-compression = { version = "0.4", features = ["tokio", "bzip2"] }
axum = "0.7"
axum-extra = { version = "0.9", features = ["async-read-body"] }
russh = "0.44"
russh-keys = "0.44"
russh-sftp = "2"
async-trait = "0.1"
