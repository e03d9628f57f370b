[package]
name = "qr_encoder"
version = "0.1.0"
edition = "2021"
publish = false

[dependencies]
ndarray = "0.15"
serde = "1"
rayon = "1"
