[package]
name = "thumbnailer"
version = "0.1.0"
edition = "2021"
publish = false

[dependencies]
image = { version = "0.25", default-features = false, features = ["png", "jpeg", "gif", "bmp"] }
wasm-bindgen = "0.2"
js-sys = "0.3"
