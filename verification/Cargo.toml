[package]
name = "qr_overlay"
version = "0.1.0"
edition = "2021"

[dependencies]
bardecoder = "=0.5.0"
image = "=0.24.9"
sha2 = "=0.11.0"
