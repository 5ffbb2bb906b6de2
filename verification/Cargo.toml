[package]
name = "sha1"
version = "0.1.0"
edition = "2021"
publish = false

[dependencies]
block-buffer = "0.7"
digest = { version = "0.9", features = ["std"] }
fake-simd = "0.1"
opaque-debug = "0.2"
