[package]
name = "text_card"
version = "0.1.0"
edition = "2021"
publish = false

[dependencies]
urlencoding = "=2.1.3"
og_image_writer = "=0.11.0"
image = { version = "=0.23.14", default-features = false, features = ["png"] }
worker = "=0.8.7"
