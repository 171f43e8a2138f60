[package]
name = "knot"
version = "0.1.0"
edition = "2021"
publish = false

[dependencies]
rand = "0.8"
nalgebra = "0.20"
alga = "0.9"
serde = { version = "1", features = ["derive"] }
serde_json = "1"
bspline = "0.2"
