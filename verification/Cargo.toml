[package]
name = "rfd_render"
version = "0.1.0"
edition = "2021"
publish = false

[dependencies]
base64 = "0.22"
hex = "0.4"
rand = "0.8"
rsa = "0.9"
serde = { version = "1", features = ["derive"] }
config = "*"
uuid = { version = "1", features = ["v4"] }
