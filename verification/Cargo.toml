[package]
name = "volta_layout"
version = "0.1.0"
edition = "2021"
publish = false

[dependencies]
dirs = "*"
console = "*"
indicatif = "*"
term_size = "*"
