[package]
name = "fmodes"
version = "0.1.0"
edition = "2021"
publish = false

[dependencies]
umask = "*"
serde = { version = "*", features = ["derive"] }
num_enum = "*"
