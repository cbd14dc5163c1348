[package]
name = "rustls_fingerprint"
version = "0.1.0"
edition = "2021"
publish = false

[dependencies]
rand = "0.9"
rustls-pki-types = { version = "1", features = ["std"] }
