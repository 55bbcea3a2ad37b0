[package]
name = "surface_host"
version = "0.1.0"
edition = "2021"
publish = false

[dependencies]
wasm-bindgen = "0.2"
web-sys = { version = "0.3", features = ["Event", "EventTarget", "Node", "Element", "HtmlElement", "HtmlCanvasElement", "UiEvent", "MouseEvent", "PointerEvent", "KeyboardEvent"] }
winit = "0.30"
