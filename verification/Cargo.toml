[package]
name = "vicoo_desktop"
version = "0.1.0"
edition = "2021"
publish = false

[dependencies]
env_logger = { version = "=0.11.11", default-features = false }
log = "=0.4.34"
tauri = { version = "=2.12.5", default-features = false }
tauri-plugin-fs = "=2.7.1"
tauri-plugin-global-shortcut = "2"
tauri-plugin-os = "=2.4.0"
tauri-plugin-process = "=2.4.0"
