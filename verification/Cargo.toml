[package]
name = "cryptoctx"
version = "0.1.0"
edition = "2021"
publish = false

[dependencies]
sha2 = "0.10"
sha3 = "0.10"
static_assertions = "1"
