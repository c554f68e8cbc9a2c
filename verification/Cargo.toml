[package]
name = "sancov"
version = "0.1.0"
edition = "2021"
publish = false

[dependencies]
fxhash = "*"
sancov-sys = "*"
