[package]
name = "otp"
version = "0.1.0"
edition = "2021"
publish = false

[dependencies]
data-encoding = "2"
ring = "0.17"
clap = { version = "3", features = ["derive"] }
atty = "0.2"
