[package]
name = "svg_quest"
version = "0.1.0"
edition = "2021"
publish = false

[dependencies]
rand = "=0.9.5"
serde = { version = "=1.0.229", features = ["derive"] }
serde_json = "=1.0.154"
wasm-bindgen = "=0.2.129"
js-sys = "=0.3.106"
web-sys = { version = "=0.3.106", features = ["Window", "Document", "Element", "Node", "NodeList", "DomTokenList", "Storage", "WebSocket", "MessageEvent", "KeyboardEvent"] }
