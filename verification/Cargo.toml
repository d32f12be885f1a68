[package]
name = "lua_lsp_provision"
version = "0.1.0"
edition = "2021"
publish = false

[dependencies]
zip = "*"
serde = { version = "*", features = ["derive"] }
serde_json = "*"
lapce-plugin = "*"
