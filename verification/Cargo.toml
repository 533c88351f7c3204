[package]
name = "pixel_compositor"
version = "0.1.0"
edition = "2021"
publish = false

[dependencies]
ctor = "*"
gtk = "*"
napi = "*"
napi-derive = "*"
pixels = "0.15"
softbuffer = "*"
tao = "*"
