[package]
name = "page_shell"
version = "0.1.0"
edition = "2021"
publish = false

[dependencies]
image = { version = "0.24", default-features = false, features = ["ico"] }
serde_json = "1"
tauri-utils = "1"
webbrowser = "0.8"
