[package]
name = "pkm"
version = "0.1.0"
edition = "2021"
publish = false

[dependencies]
no_std_io = "*"
safe-transmute = "*"
