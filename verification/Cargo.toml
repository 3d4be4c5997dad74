[package]
name = "webgl_render"
version = "0.1.0"
edition = "2021"
publish = false

[dependencies]
stl_io = "*"
nalgebra = "*"
wasm-bindgen = "*"
js-sys = "*"
wasm-bindgen-futures = "*"
console_error_panic_hook = "*"

[dependencies.web-sys]
version = "*"
features = [
    "console",
    "Window",
    "Document",
    "Element",
    "Node",
    "HtmlCanvasElement",
    "HtmlElement",
    "CssStyleDeclaration",
    "WebGl2RenderingContext",
    "WebGlProgram",
    "WebGlShader",
    "WebGlBuffer",
    "WebGlVertexArrayObject",
    "WebGlUniformLocation",
    "Response",
]
