[package]
name = "rtracer"
version = "0.1.0"
edition = "2021"
publish = false

[dependencies]
rand = "0.8"
rand_distr = "0.4"
nalgebra = "0.25"
serde = { version = "1", features = ["derive"] }
ron = "0.6"
image = "0.23"
custom_error = "1.9"
num-traits = "0.2"
