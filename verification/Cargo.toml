[package]
name = "websocket-web"
version = "0.1.0"
edition = "2021"
publish = false

[dependencies]
futures = "*"
futures-channel = "*"
futures-core = "*"
futures-sink = "*"
futures-util = { version = "*", features = ["sink"] }
js-sys = "*"
tokio = { version = "*", features = ["sync"] }
wasm-bindgen = "*"
wasm-bindgen-futures = "*"
web-sys = { version = "*", features = ["BinaryType", "CloseEvent", "Event", "MessageEvent", "ReadableStream", "ReadableStreamDefaultReader", "WebSocket", "Window", "WorkerGlobalScope", "WritableStream", "WritableStreamDefaultWriter"] }
