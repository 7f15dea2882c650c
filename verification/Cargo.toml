[package]
name = "vesting"
version = "0.1.0"
edition = "2021"
publish = false

[dependencies]
near-sdk = { version = "4.1.1", default-features = false }
near-sdk-contract-tools = "1.1.1"
