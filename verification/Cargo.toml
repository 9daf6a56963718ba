[package]
name = "rcade_sdk"
version = "0.1.0"
edition = "2021"
publish = false

[dependencies]
hashbrown = "*"
js-sys = "*"
wasm-bindgen = "*"
wasm-bindgen-futures = "*"
web-sys = { version = "*", features = ["Blob", "BlobPropertyBag", "DedicatedWorkerGlobalScope", "EventTarget", "MessageEvent", "MessagePort", "Url", "Window", "Worker", "WorkerOptions", "WorkerType"] }
