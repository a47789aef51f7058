[package]
name = "deb822_repository"
version = "0.1.0"
edition = "2021"
publish = false

[dependencies]
deb822-lossless = "*"
