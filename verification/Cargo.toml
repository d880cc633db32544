[package]
name = "rustdoc_gen"
version = "0.1.0"
edition = "2021"
publish = false

[dependencies]
anyhow = "*"
crates_io_api = "*"
duct = "*"
