[package]
name = "todo_app"
version = "0.1.0"
edition = "2021"
publish = false

[dependencies]
anyhow = "1"
serde = { version = "1", features = ["derive"] }
wasm-bindgen = "0.2"
yew = "0.18"
yew-router = "0.15"
