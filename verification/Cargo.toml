[package]
name = "soccer_strategy"
version = "0.1.0"
edition = "2021"
publish = false

[dependencies]
ggez = { version = "0.9", default-features = false }
glam = "*"
uuid = { version = "1", features = ["v4"] }
