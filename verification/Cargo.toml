[package]
name = "envoy_extension_core"
version = "0.1.0"
edition = "2021"
publish = false

[dependencies]
envoy-sdk = "*"
nanoserde = "*"
proxy-wasm = "*"
