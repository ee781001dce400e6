[package]
name = "sheetform"
version = "0.1.0"
edition = "2021"
publish = false

[dependencies]
calamine = "*"
mimalloc = "*"
napi = { version = "*", features = ["compat-mode", "serde-json"] }
napi-derive = { version = "*", features = ["compat-mode"] }
serde = { version = "1", features = ["derive"] }
serde_json = "1"
thiserror = "1"
