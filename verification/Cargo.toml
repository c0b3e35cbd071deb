[package]
name = "tpm-box"
version = "0.1.0"
edition = "2021"

[dependencies]
tss-esapi = { version = "7", default-features = false }
