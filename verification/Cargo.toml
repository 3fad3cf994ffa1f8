[package]
name = "kartoffels"
version = "0.1.0"
edition = "2021"
publish = false

[dependencies]
anyhow = "1"
ciborium = "0.2"
console_error_panic_hook = "0.1"
futures = "0.3"
glam = "*"
rand = { version = "0.8", features = ["small_rng"] }
rand_chacha = "0.3"
ratatui = { version = "*", default-features = false }
serde = { version = "1", features = ["derive"] }
serde-wasm-bindgen = "*"
termwiz = { version = "*", default-features = false }
tokio = { version = "1", features = ["rt", "sync", "time"] }
tracing = "0.1"
tracing-subscriber = "0.3"
tracing-wasm = "*"
wasm-bindgen = "0.2"
wasm-bindgen-futures = "0.4"
wasm-streams = "*"
web-sys = { version = "0.3", features = ["Window"] }
