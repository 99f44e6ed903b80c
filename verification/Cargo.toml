[package]
name = "light_inspector"
version = "0.1.0"
edition = "2021"
publish = false

[dependencies]
rg3d = "*"
