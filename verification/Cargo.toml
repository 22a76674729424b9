[package]
name = "gl_sandbox"
version = "0.1.0"
edition = "2021"
publish = false

[dependencies]
cgmath = "0.16"
gl = "0.11"
glutin = "0.21"
image = { version = "0.18", default-features = false, features = ["png_codec"] }
