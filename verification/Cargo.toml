[package]
name = "svc16"
version = "0.1.0"
edition = "2021"
publish = false

[dependencies]
rand = "0.9"
flate2 = "1"
clap = { version = "4", features = ["derive"] }
anyhow = "1"
