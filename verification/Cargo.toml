[package]
name = "margined_engine"
version = "0.1.0"
edition = "2021"
publish = false

[dependencies]
sha3 = "0.10"
cosmwasm-std = "1.5"
cosmwasm-schema = "1.5"
