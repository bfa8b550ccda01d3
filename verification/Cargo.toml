[package]
name = "relayer_bootstrap"
version = "0.1.0"
edition = "2021"
publish = false

[dependencies]
ethers-core = "*"
