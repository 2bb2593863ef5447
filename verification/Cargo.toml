[package]
name = "mipidsi_async"
version = "0.1.0"
edition = "2021"
publish = false

[dependencies]
display-interface = "*"
embedded-graphics-core = "0.4"
embedded-hal = "1"
embedded-hal-async = "1"
mipidsi = "0.7"
