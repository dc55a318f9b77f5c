[package]
name = "ppne"
version = "0.1.0"
edition = "2021"
publish = false

[dependencies]
rustc_apfloat = "*"
image = { version = "*", default-features = false, features = ["png", "jpeg"] }
