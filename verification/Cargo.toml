[package]
name = "arabic_morph"
version = "0.1.0"
edition = "2021"
publish = false

[dependencies]
wasm-bindgen = "*"
serde = { version = "*", features = ["derive"] }
serde_json = "*"
console_error_panic_hook = "*"
