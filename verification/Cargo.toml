[package]
name = "walk_the_dog"
version = "0.1.0"
edition = "2021"
publish = false

[dependencies]
futures = "0.3"
anyhow = "1"
async-trait = "0.1"
console_error_panic_hook = "0.1"
wasm-bindgen = "0.2"
wasm-bindgen-futures = "0.4"
web-sys = { version = "0.3", features = ["Window", "Document", "Element", "HtmlCanvasElement", "CanvasRenderingContext2d", "HtmlImageElement", "KeyboardEvent", "Event", "Response", "Performance"] }
serde = { version = "1", features = ["derive"] }
serde_json = "1"
