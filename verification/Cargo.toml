[package]
name = "network_graph"
version = "0.1.0"
edition = "2021"
publish = false

[dependencies]
petgraph = "0.6"
urlencoding = "2"
yew = "0.19"
yew-router = "0.16"
wasm-bindgen = "0.2"
gloo-console = "0.2"
web-sys = { version = "0.3", features = ["CanvasRenderingContext2d", "HtmlCanvasElement", "OffscreenCanvas", "TextMetrics", "MouseEvent"] }
