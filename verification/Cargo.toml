[package]
name = "pim447_trackball"
version = "0.1.0"
edition = "2021"
publish = false

[dependencies]
rppal = "=0.22.1"
simple-signal = "*"
