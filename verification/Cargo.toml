[package]
name = "raytracer"
version = "0.1.0"
edition = "2021"
publish = false

[dependencies]
glam = "=0.24.2"
image = { version = "=0.24.9", default-features = false, features = ["png", "jpeg"] }
indicatif = { version = "=0.17.11", features = ["rayon"] }
itertools = "=0.12.1"
noise = "=0.8.2"
rand = "=0.8.8"
rayon = "=1.12.0"
