[package]
name = "image_classifier"
version = "0.1.0"
edition = "2021"
publish = false

[dependencies]
burn = { version = "=0.16.1", default-features = false, features = ["std", "ndarray", "autodiff", "dataset"] }
