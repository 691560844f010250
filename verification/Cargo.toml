[package]
name = "wasm3"
version = "0.1.0"
edition = "2021"
publish = false

[dependencies]
wasm3-sys = "*"
cty = "*"
