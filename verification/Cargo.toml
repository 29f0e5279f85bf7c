[package]
name = "wsl_get"
version = "0.1.0"
edition = "2021"
publish = false

[dependencies]
anyhow = "1"
argopt = "*"
dialoguer = "*"
directories = "*"
flate2 = "1"
tempfile = "3"

[dev-dependencies]
regex = "1"
