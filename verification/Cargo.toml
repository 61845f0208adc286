[package]
name = "hid"
version = "0.1.0"
edition = "2021"

[dependencies]
hidapi-sys = "0.1"
libc = "0.2"
