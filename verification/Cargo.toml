[package]
name = "globe"
version = "0.1.0"
edition = "2021"
publish = false

[dependencies]
wasm-bindgen = "*"
js-sys = "*"
lazy_static = "*"
console_error_panic_hook = "*"
nalgebra = "*"

[dependencies.web-sys]
version = "*"
features = ["Window", "Document", "Element", "Node", "EventTarget", "HtmlElement", "HtmlCanvasElement", "HtmlButtonElement", "HtmlInputElement", "HtmlImageElement", "MouseEvent", "WheelEvent", "WebGlRenderingContext", "WebGlProgram", "WebGlShader", "WebGlBuffer", "WebGlTexture", "WebGlUniformLocation", "console"]
