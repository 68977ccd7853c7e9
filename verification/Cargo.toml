[package]
name = "mainnet_explorer"
version = "0.1.0"
edition = "2021"
publish = false

[dependencies]
ethers = { version = "=2.0.14", default-features = false, features = ["ws", "etherscan"] }
yew = "=0.19.3"
wasm-bindgen = "=0.2.130"
web-sys = { version = "=0.3.107", features = ["HtmlInputElement"] }
serde = { version = "=1.0.229", features = ["derive"] }
serde-wasm-bindgen = "=0.4.5"
log = "=0.4.35"
wasm-logger = "=0.2.0"
