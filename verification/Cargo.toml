[package]
name = "wallet_adapter"
version = "0.1.0"
edition = "2021"
publish = false

[dependencies]
fastrand = "2"
percent-encoding = "2"
data-encoding = "2"
qrcodegen = "1"
wasm-bindgen = "0.2"
js-sys = "0.3"
wasm-bindgen-futures = "0.4"
web-sys = { version = "0.3", features = ["Window", "Document"] }
serde = { version = "1", features = ["derive"] }
serde_json = "1"
