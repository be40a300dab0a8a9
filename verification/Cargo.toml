[package]
name = "virtual-tty"
version = "0.1.0"
edition = "2021"
publish = false

[dependencies]
libc = "0.2"
wasm-bindgen = "0.2"
