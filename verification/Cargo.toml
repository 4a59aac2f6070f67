[package]
name = "instant_seal"
version = "0.1.0"
edition = "2021"
publish = false

[dependencies]
futures = "0.3"
parking_lot = "0.12"
log = "0.4"
jsonrpc-core = "18"
