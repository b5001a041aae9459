[package]
name = "blackjack_strategy"
version = "0.1.0"
edition = "2021"
publish = false

[dependencies]
serde = { version = "1", features = ["derive"] }
wasm-bindgen = "0.2"
