[package]
name = "certstore"
version = "0.1.0"
edition = "2021"
publish = false

[dependencies]
winapi = "=0.2.8"
crypt32-sys = "*"
