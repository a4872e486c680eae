[package]
name = "pkce_auth"
version = "0.1.0"
edition = "2021"
publish = false

[dependencies]
oauth2 = "4"
openidconnect = "3"
wasm-bindgen = "0.2"
web-sys = { version = "0.3", features = ["Storage", "Window"] }
