[package]
name = "asset_gateway"
version = "0.1.0"
edition = "2021"
publish = false

[dependencies]
mime_guess = "2"
rust-embed = "8"
image = { version = "0.25", default-features = false, features = ["ico"] }
tao = "*"
wry = "*"
