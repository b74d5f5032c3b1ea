[package]
name = "inertia_algebra"
version = "0.1.0"
edition = "2021"
publish = false

[dependencies]
approx = "0.5"
