[package]
name = "lorenz_vis"
version = "0.1.0"
edition = "2021"
publish = false

[dependencies]
rand = "=0.8.5"
nalgebra = "=0.35.0"
wasm-bindgen = "=0.2.92"
wasm-bindgen-futures = "=0.4.42"
js-sys = "=0.3.69"
web-sys = { version = "=0.3.69", features = ["Window", "Document", "Element", "HtmlElement", "HtmlCanvasElement", "HtmlButtonElement", "HtmlInputElement", "HtmlLabelElement", "WebGl2RenderingContext", "WebGlBuffer", "WebGlProgram", "WebGlShader", "WebGlUniformLocation", "WebGlVertexArrayObject", "MouseEvent", "KeyboardEvent", "CanvasRenderingContext2d", "Event", "EventTarget"] }
gloo = { version = "=0.11.0", features = ["futures"] }
futures-util = "*"
console_error_panic_hook = "*"
