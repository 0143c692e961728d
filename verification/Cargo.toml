[package]
name = "telegram_air"
version = "0.1.0"
edition = "2021"
publish = false

[dependencies]
url = "*"
uuid = { version = "*", features = ["v4"] }
image = { version = "*", default-features = false, features = ["png"] }
imageproc = "*"
ab_glyph = "*"
serde_json = "*"
