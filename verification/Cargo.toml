[package]
name = "ws_futures"
version = "0.1.0"
edition = "2021"
publish = false

[dependencies]
futures-channel = "0.3"
futures-core = "0.3"
futures-sink = "0.3"
gloo-utils = "*"
js-sys = "0.3"
pin-project = "1"
serde = "1"
wasm-bindgen = "0.2"
web-sys = { version = "0.3", features = ["BinaryType", "CloseEvent", "Event", "MessageEvent", "WebSocket"] }
