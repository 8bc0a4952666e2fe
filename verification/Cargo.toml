[package]
name = "metal_caps"
version = "0.1.0"
edition = "2021"
publish = false

[dependencies]
wgpu-types = "0.11"
metal = "0.23"
objc = "0.2"
