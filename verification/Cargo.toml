[package]
name = "gdshader_lsp"
version = "0.1.0"
edition = "2021"
publish = false

[dependencies]
regex = "1"
lsp-types = "0.95"
lsp-server = "0.7"
serde_json = "1"
walkdir = "2"
