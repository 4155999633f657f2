[package]
name = "hotswap"
version = "0.1.0"
edition = "2021"
publish = false

[dependencies]
axum = "=0.8.9"
console_error_panic_hook = "=0.1.7"
dioxus-cli-config = "=0.7.10"
dioxus-devtools = "=0.7.10"
futures-channel = "=0.3.34"
js-sys = "=0.3.107"
leb128 = "=0.2.7"
manganis = "=0.7.10"
rayon = "=1.12.0"
serde_json = "=1.0.154"
serde-wasm-bindgen = "=0.6.5"
subsecond = "=0.7.10"
tokio = { version = "=1.54.1", features = ["macros", "rt-multi-thread", "net"] }
wasm-bindgen = "=0.2.130"
wasm-bindgen-futures = "=0.4.80"
web-sys = { version = "=0.3.107", features = ["console", "DedicatedWorkerGlobalScope", "Document", "Element", "Event", "EventTarget", "ImageData", "Location", "MessageChannel", "MessageEvent", "MessagePort", "Node", "WebSocket", "Window", "Worker", "WorkerOptions", "WorkerType"] }
