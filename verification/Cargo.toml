[package]
name = "levo"
version = "0.1.0"
edition = "2021"
publish = false

[dependencies]
brotli = "3"
url = "2"
clap = { version = "4", features = ["derive"] }
