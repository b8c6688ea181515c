[package]
name = "xgx_intern"
version = "0.1.0"
edition = "2021"
publish = false

[dependencies]

[dev-dependencies]
ahash = "*"
rustc-hash = "*"
