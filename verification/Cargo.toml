[package]
name = "hello_triangle"
version = "0.1.0"
edition = "2021"
publish = false

[dependencies]
glam = "*"
gltf = "*"
minifb = "*"
