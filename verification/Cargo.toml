[package]
name = "level_frontend"
version = "0.1.0"
edition = "2021"
publish = false

[dependencies]
yew = { version = "=0.21.0", features = ["csr"] }
yew-hooks = "=0.3.4"
yewdux = "=0.11.0"
web-sys = { version = "=0.3.107", features = ["HtmlElement", "HtmlInputElement", "HtmlTextAreaElement", "Window", "Document", "Element", "CssStyleDeclaration", "DomRect", "Navigator", "InputEvent", "MouseEvent", "KeyboardEvent", "Event", "EventTarget", "console"] }
wasm-bindgen = "=0.2.130"
wasm-bindgen-futures = "=0.4.80"
js-sys = "=0.3.107"
gloo-timers = "=0.3.0"
gloo-storage = "=0.3.0"
csscolorparser = "=0.6.2"
serde = { version = "=1.0.229", features = ["derive"] }
serde-wasm-bindgen = "=0.6.5"
chrono = "=0.4.45"
derive_more = "=0.99.20"
console_log = "=1.1.0"
