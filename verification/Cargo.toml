[package]
name = "pngtooba"
version = "0.1.0"
edition = "2021"
publish = false

[dependencies]
image = { version = "0.25", default-features = false, features = ["gif", "png", "webp"] }
gif = "*"
rustfft = "6"
obs-wrapper = "*"
