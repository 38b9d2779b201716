[package]
name = "hello_ocrs"
version = "0.1.0"
edition = "2021"
publish = false

[dependencies]
anyhow = "=1.0.104"
chrono = "=0.4.45"
image = { version = "=0.25.10", default-features = false, features = ["png", "jpeg", "webp"] }
lexopt = "=0.3.2"
ocrs = "=0.13.1"
rten = "=0.26.0"
rten-imageproc = "=0.26.0"
