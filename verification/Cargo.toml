[package]
name = "trace_lde"
version = "0.1.0"
edition = "2021"
publish = false

[dependencies]
winter-crypto = "0.8"
winter-math = "0.8"
winter-utils = "0.8"
