[package]
name = "precompile_registry"
version = "0.1.0"
edition = "2021"
publish = false

[dependencies]
alloy-evm = "*"
alloy-genesis = "*"
alloy-primitives = "*"
eyre = "0.6"
revm = "*"
tokio = { version = "1", features = ["rt-multi-thread", "macros"] }
