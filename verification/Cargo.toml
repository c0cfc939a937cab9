[package]
name = "openssl_enc"
version = "0.1.0"
edition = "2021"
publish = false

[dependencies]
openssl = "*"
ring = "*"
