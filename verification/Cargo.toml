[package]
name = "wast_assert_compile"
version = "0.1.0"
edition = "2021"
publish = false

[dependencies]
wast = "*"
