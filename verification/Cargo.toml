[package]
name = "og_image"
version = "0.1.0"
edition = "2021"
publish = false

[dependencies]
liquid = "=0.24.0"
liquid-lib = "=0.24.0"
resvg = "=0.48.1"
usvg = "=0.48.1"
image = "=0.25.10"
base64 = "=0.23.1"
reqwest = { version = "=0.13.5", default-features = false, features = ["blocking"] }
