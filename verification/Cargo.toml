[package]
name = "booster"
version = "0.1.0"
edition = "2021"
publish = false

[dependencies]
wdk = "*"
wdk-alloc = "*"
wdk-panic = "*"
wdk-sys = "*"
