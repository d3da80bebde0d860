[package]
name = "ssd1331"
version = "0.2.0"
edition = "2021"
publish = false

[dependencies]
embedded-hal = "0.2.3"
embedded-graphics = "=0.6.0-alpha.2"
