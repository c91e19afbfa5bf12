[package]
name = "axis_membership"
version = "0.1.0"
edition = "2021"
publish = false

[dependencies]
near-sdk = { version = "=5.29.1", features = ["non-contract-usage"] }
near-sdk-contract-tools = "=4.0.0"
