[package]
name = "versus_stacker"
version = "0.1.0"
edition = "2021"
publish = false

[dependencies]
rand = "0.8"
tbp = "*"
serde = { version = "1", features = ["derive"] }
serde_json = "1"
serde-wasm-bindgen = "0.6"
wasm-bindgen = "0.2"
web-sys = { version = "0.3", features = ["console"] }
console_error_panic_hook = "0.1"
tiny_http = "0.12"
clap = { version = "4", features = ["derive"] }
tokio = { version = "1", features = ["full"] }
tokio-tungstenite = "0.21"
futures = "0.3"
anyhow = "1"
