[package]
name = "flutter_rust_windows_embedder"
version = "0.1.0"
edition = "2021"
publish = false

[dependencies]
serde_json = "1"
parking_lot = "0.12"
once_cell = "1"
libloading = "0.8"
log = "0.4"
anyhow = "1"
