[package]
name = "vm_player"
version = "0.1.0"
edition = "2021"
publish = false

[dependencies]
async-std = "*"
num = "*"
wasm-bindgen = "*"
