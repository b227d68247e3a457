[package]
name = "roche"
version = "0.1.0"
edition = "2021"
publish = false

[dependencies]
bulirsch = "=0.1.12"
ndarray = "=0.16.1"
