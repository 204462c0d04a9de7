[package]
name = "peridot_windows"
version = "0.1.0"
edition = "2021"
publish = false

[dependencies]
url = "=2.5.8"
tauri = { version = "2", default-features = false }
