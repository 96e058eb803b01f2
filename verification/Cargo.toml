[package]
name = "point2d"
version = "0.1.0"
edition = "2021"
publish = false

[dependencies]
piston2d-graphics = { version = "*", default-features = false }
