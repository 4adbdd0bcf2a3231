[package]
name = "signer_boundary"
version = "0.1.0"
edition = "2021"
publish = false

[dependencies]
whisky-wallet = "=1.0.25"
whisky-common = "=1.0.25"
