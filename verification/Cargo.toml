[package]
name = "fractype"
version = "0.1.0"
edition = "2021"
publish = false

[dependencies]
rand = "0.8"
iced = { version = "0.12", default-features = false }
image = { version = "0.24", default-features = false, features = ["png"] }
