[package]
name = "rosu-pp-js"
version = "0.1.0"
edition = "2021"
publish = false

[dependencies]
console_error_panic_hook = "=0.1.7"
js-sys = "=0.3.106"
rosu-mods = { version = "=0.3.1", features = ["serde"] }
rosu-pp = "=3.1.0"
serde = "1"
wasm-bindgen = "=0.2.129"
