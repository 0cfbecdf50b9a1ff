[package]
name = "mordant"
version = "0.1.0"
edition = "2021"
publish = false

[dependencies]
tree-sitter = "*"
tree-sitter-highlight = "*"
tree-sitter-md = "*"
tree-sitter-language = "*"
tree-sitter-python = "*"
tree-sitter-javascript = "*"
tree-sitter-typescript = "*"
tree-sitter-lua = "*"
tree-sitter-json = "*"
tree-sitter-rust = "*"
tree-sitter-css = "*"
tree-sitter-html = "*"
tree-sitter-sequel = "*"
shellexpand = "*"
libloading = "*"
clap = { version = "*", features = ["derive"] }
rayon = "*"
serde = { version = "*", features = ["derive"] }
toml = "*"
