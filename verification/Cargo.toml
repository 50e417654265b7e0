[package]
name = "shape_renderer"
version = "0.1.0"
edition = "2021"
publish = false

[dependencies]
js-sys = "*"
wasm-bindgen = "*"
web-sys = { version = "*", features = [
    "Document",
    "Element",
    "HtmlCanvasElement",
    "HtmlInputElement",
    "WebGlBuffer",
    "WebGlProgram",
    "WebGlRenderingContext",
    "WebGlShader",
    "Window",
] }
