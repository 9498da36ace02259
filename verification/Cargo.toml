[package]
name = "lua_tree_sitter"
version = "0.1.0"
edition = "2021"
publish = false

[dependencies]
mlua = { version = "*", features = ["lua54", "vendored"] }
tree-sitter = "*"

[dev-dependencies]
tree-sitter-python = "*"
