[package]
name = "deadpool_oracle"
version = "0.1.0"
edition = "2021"
publish = false

[dependencies]
deadpool = { version = "*", features = ["rt_tokio_1"] }
oracle-rs = "*"
