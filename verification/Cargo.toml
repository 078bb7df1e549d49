[package]
name = "id_space"
version = "0.1.0"
edition = "2021"
publish = false

[dependencies]
roaring = "*"
