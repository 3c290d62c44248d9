[package]
name = "window_core"
version = "0.1.0"
edition = "2021"
publish = false

[dependencies]
instant = "*"
image = { version = "*", default-features = false }
nalgebra = { version = "*", default-features = false, features = ["std"] }
conrod_core = "*"
