[package]
name = "potato"
version = "0.1.0"
edition = "2021"
publish = false

[dependencies]
snow = "*"
serde-wasm-bindgen = "*"
wasm-bindgen = "*"
js-sys = "*"
serde_json = "*"
anyhow = "*"
tokio = { version = "1", features = ["macros", "rt-multi-thread", "net", "io-std"] }
tokio-tungstenite = "*"
futures-util = { version = "*", features = ["sink"] }
jsonrpsee = { version = "*", features = ["server", "ws-client", "macros"] }
