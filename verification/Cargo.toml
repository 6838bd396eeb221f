[package]
name = "rustenstein_3d"
version = "0.1.0"
edition = "2021"
publish = false

[dependencies]
clap = { version = "=4.6.7", features = ["derive"] }
sfml = "0.16"
