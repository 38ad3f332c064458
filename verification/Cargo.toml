[package]
name = "ltr-559"
version = "0.1.4"
edition = "2021"
publish = false

[dependencies]
embedded-hal = "0.2"
