[package]
name = "codex_wui"
version = "0.1.0"
edition = "2021"
publish = false

[dependencies]
base64 = "=0.22.1"
regex = "=1.13.1"
reqwest = { version = "=0.12.28", default-features = false, features = ["json"] }
rfd = { version = "=0.15.4", default-features = false }
rusqlite = { version = "=0.37.0", features = ["bundled"] }
serde = { version = "=1.0.229", features = ["derive"] }
serde_json = { version = "=1.0.154", features = ["float_roundtrip"] }
tauri = { version = "=2.12.5", default-features = false }
tauri-plugin-log = "=2.10.1"
urlencoding = "=2.1.3"
