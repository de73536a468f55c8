[package]
name = "chat_view"
version = "0.1.0"
edition = "2021"
publish = false

[dependencies]
serde_json = "=1.0.154"
log = "=0.4.34"
yew = "=0.19.3"
yew-agent = "=0.1.0"
web-sys = { version = "=0.3.106", features = ["HtmlInputElement", "MessageEvent", "WebSocket"] }
futures = "=0.3.34"
wasm-bindgen = "=0.2.129"
wasm-bindgen-futures = "=0.4.79"
