[package]
name = "song_visualizer"
version = "0.1.0"
edition = "2021"
publish = false

[dependencies]
instant = { version = "=0.1.13", features = ["wasm-bindgen"] }
js-sys = "=0.3.106"
serde = { version = "=1.0.229", features = ["derive"] }
serde-wasm-bindgen = "=0.6.5"
wasm-bindgen = "=0.2.129"
web-sys = { version = "=0.3.106", features = ["HtmlCanvasElement", "WebGl2RenderingContext", "WebGlBuffer", "WebGlProgram", "WebGlShader", "WebGlUniformLocation", "WebGlVertexArrayObject", "console"] }

[dev-dependencies]
std140 = "=0.2.7"
