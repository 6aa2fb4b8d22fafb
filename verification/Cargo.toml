[package]
name = "pastebin"
version = "0.1.0"
edition = "2021"
publish = false

[dependencies]
chrono = "=0.4.45"
uuid = { version = "=0.8.2", features = ["v4"] }
url = "=2.5.8"
maud = "=0.27.0"
serde_json = "=1.0.154"
js-sys = "=0.3.106"
wasm-bindgen = "=0.2.129"
wasm-bindgen-futures = "=0.4.79"
web-sys = { version = "=0.3.106", features = ["FormData", "Headers", "Request", "Response", "ResponseInit"] }
