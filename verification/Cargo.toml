[package]
name = "soulsy"
version = "0.1.0"
edition = "2021"
publish = false

[dependencies]
chardet = "0.2"
encoding = "0.2"
cxx = "1"
