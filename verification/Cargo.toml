[package]
name = "rhusics"
version = "0.1.0"
edition = "2021"
publish = false

[dependencies]
cgmath = "0.17"
collision = "0.20"
shrev = "1"
specs = { version = "*", default-features = false }
