[package]
name = "cell_vm"
version = "0.1.0"
edition = "2021"
publish = false

[dependencies]
console_error_panic_hook = "0.1"
js-sys = "0.3"
lazy_static = "1"
wasm-bindgen = "0.2"
wee_alloc = "0.4"
