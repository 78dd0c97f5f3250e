[package]
name = "opencadstudio"
version = "0.1.0"
edition = "2021"
publish = false

[dependencies]
url = "=2.5.8"
serde = { version = "=1.0.229", features = ["derive"] }
serde_json = "=1.0.154"
log = "=0.4.35"
open = "=5.4.5"
glam = "=0.34.2"
acadrust = "=0.6.8"
iced = { version = "=0.14.0", default-features = false, features = ["thread-pool", "x11", "tiny-skia"] }
js-sys = "=0.3.107"
wasm-bindgen = "=0.2.130"
wasm-bindgen-futures = "=0.4.80"
web-sys = { version = "=0.3.107", features = ["Window", "Document", "Element", "HtmlElement", "HtmlCanvasElement", "CanvasRenderingContext2d", "ImageData", "Navigator", "Clipboard", "KeyboardEvent", "KeyboardEventInit", "EventTarget", "Event", "Blob", "Url", "HtmlAnchorElement", "BeforeUnloadEvent", "Storage", "console", "Node"] }
