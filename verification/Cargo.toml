[package]
name = "swbuf"
version = "0.1.0"
edition = "2021"
publish = false

[dependencies]
nix = "*"
raw-window-handle = "0.5"
x11-dl = "*"
