[package]
name = "webrtc_chat"
version = "0.1.0"
edition = "2021"
publish = false

[dependencies]
base64 = "0.13"
serde = { version = "1", features = ["derive"] }
serde_json = "1"
wasm-bindgen = "0.2"
wasm-bindgen-futures = "0.4"
web-sys = { version = "0.3", features = ["console", "Document", "Element", "Event", "EventTarget", "HtmlDocument", "HtmlElement", "HtmlInputElement", "InputEvent", "KeyboardEvent", "Node", "RtcDataChannelState", "RtcIceConnectionState", "RtcIceGatheringState", "Window"] }
yew = { version = "0.21", features = ["csr"] }
