[package]
name = "crosstraffic_wasm"
version = "0.3.5"
edition = "2021"
publish = false

[dependencies]
transportations_library = "*"
wasm-bindgen = "0.2"
js-sys = "0.3"
serde = { version = "1", features = ["derive"] }
serde-wasm-bindgen = "0.6"
