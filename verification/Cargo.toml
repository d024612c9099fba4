[package]
name = "mdwiki"
version = "0.1.0"
edition = "2021"
publish = false

[dependencies]
frontmatter = "*"
hoedown = "*"
walkdir = "*"
yaml-rust = "*"
