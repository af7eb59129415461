[package]
name = "bsp_glb"
version = "0.1.0"
edition = "2021"
publish = false

[dependencies]
lzma-rs = "*"
ordered-float = "*"

[dependencies.image]
version = "*"
default-features = false
features = ["png"]
