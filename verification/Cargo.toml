[package]
name = "httpcalls"
version = "0.1.0"
edition = "2021"
publish = false

[dependencies]
gloo-console = "=0.3.0"
gloo-timers = { version = "=0.3.0", features = ["futures"] }
js-sys = "=0.3.107"
reqwasm = "=0.5.0"
serde = { version = "=1.0.229", features = ["derive"] }
serde_json = "=1.0.154"
thiserror = "=1.0.69"
wasm-bindgen-futures = "=0.4.80"
web-sys = { version = "=0.3.107", features = ["Blob", "BlobPropertyBag", "FormData"] }
yew = "=0.21.0"

[dev-dependencies]
wasm-bindgen = "=0.2.130"
