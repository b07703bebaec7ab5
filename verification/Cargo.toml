[package]
name = "up_rust"
version = "0.1.0"
edition = "2021"
publish = false

[dependencies]
bytes = "=1.12.1"
mediatype = "=0.23.0"
sha2 = "=0.10.9"
