[package]
name = "modelm"
version = "0.5.0"
edition = "2021"
publish = false

[dependencies]
regex = "*"
rand = "0.8"
yaml-rust = "*"
ears = "*"
clap = "2"
