[package]
name = "palette_core"
version = "0.1.0"
edition = "2021"
publish = false

[dependencies]
toml = "*"
serde = { version = "*", features = ["derive", "rc"] }
serde_json = "*"
thiserror = "*"
ratatui = { version = "*", default-features = false }
egui = { version = "*", default-features = false }
wasm-bindgen = "*"
js-sys = "*"
