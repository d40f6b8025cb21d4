[package]
name = "boids"
version = "0.1.0"
edition = "2021"
publish = false

[dependencies]
nalgebra = "0.32"
rand = "0.8"
lazy_static = "1.4"
log = "0.4"
wasm-bindgen = "0.2"
wasm-logger = "0.2"
yew = "0.18"
web-sys = { version = "0.3", features = ["CanvasRenderingContext2d", "Document", "Element", "History", "HtmlCanvasElement", "HtmlImageElement", "HtmlElement", "MouseEvent", "Performance", "Url", "UrlSearchParams", "Window"] }
