[package]
name = "nodem_wasm"
version = "0.1.0"
edition = "2021"
publish = false

[dependencies]
bytes = "1"
bitmap_writer = "*"
wasm-bindgen = "0.2"
js-sys = "0.3"
wasm-bindgen-futures = "0.4"
log = "0.4"
wasm-logger = "0.2"
