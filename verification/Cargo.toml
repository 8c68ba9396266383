[package]
name = "image_browser"
version = "0.1.0"
edition = "2021"
publish = false

[dependencies]
eframe = { version = "*", default-features = false, features = ["glow", "x11", "default_fonts"] }
arboard = { version = "*", default-features = false, features = ["image-data"] }
image = { version = "*", default-features = false, features = ["png", "jpeg", "tga", "webp"] }
