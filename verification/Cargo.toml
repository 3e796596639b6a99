[package]
name = "craft_sim"
version = "0.1.0"
edition = "2021"
publish = false

[dependencies]
getrandom = "0.2"
log = "0.4"
wasm-logger = "0.2"
web-sys = { version = "0.3", features = ["HtmlSelectElement"] }
yew = "0.19"
