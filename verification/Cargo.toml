[package]
name = "cad_app"
version = "0.1.0"
edition = "2021"
publish = false

[dependencies]
base64 = "0.22"
image = { version = "0.25", default-features = false, features = ["jpeg", "png", "bmp", "tiff"] }
egui = "0.30"
glam = "*"
