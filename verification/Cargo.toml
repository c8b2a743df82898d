[package]
name = "bullet_hell"
version = "0.1.0"
edition = "2021"
publish = false

[dependencies]
futures = "0.3"
gloo = "*"
gloo-net = "*"
gloo-render = "*"
log = "0.4"
wasm-bindgen = "0.2"
wasm-bindgen-futures = "0.4"
wasm-logger = "0.2"
web-sys = { version = "0.3", features = ["Blob", "CanvasRenderingContext2d", "Document", "Element", "HtmlAudioElement", "HtmlCanvasElement", "HtmlImageElement", "HtmlMediaElement", "KeyboardEvent", "Response", "Url", "Window"] }
yew = "0.19"
