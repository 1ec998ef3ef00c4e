[package]
name = "img2kvm"
version = "0.1.0"
edition = "2021"
publish = false

[dependencies]
anyhow = "=1.0.104"
bzip2 = "=0.6.1"
clap = { version = "=4.6.7", features = ["derive"] }
dunce = "=1.0.5"
flate2 = "=1.1.10"
lzma-rust2 = "=0.23.0"
zip = "=9.0.5"
