[package]
name = "da_gas_oracle"
version = "0.1.0"
edition = "2021"
publish = false

[dependencies]
alloy-primitives = "*"
alloy-sol-types = "*"
alloy-contract = "*"
alloy-provider = { version = "*", default-features = false }
alloy-transport = "*"
alloy-eips = "*"
