[package]
name = "code_wrapper"
version = "0.1.0"
edition = "2021"
publish = false

[dependencies]
tree-sitter = "*"
tree-sitter-go = "*"
tree-sitter-python = "*"
tree-sitter-java = "*"
strfmt = "*"
temp-dir = "*"
fs_extra = "*"
chrono = "*"
itertools = "*"
walkdir = "*"
