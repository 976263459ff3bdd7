[package]
name = "bootstrap_core"
version = "0.1.0"
edition = "2021"
publish = false

[dependencies]
log = "0.4"
tauri = { version = "2", default-features = false }
tauri-plugin-log = { version = "2", default-features = false }
tauri-plugin-os = { version = "2", default-features = false }
