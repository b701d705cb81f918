[package]
name = "mpg123"
version = "0.1.0"
edition = "2021"
publish = false

[dependencies]
libc = "=0.2.191"
mpg123-sys = "=0.5.0"
