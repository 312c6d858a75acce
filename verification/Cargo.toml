[package]
name = "pocketsphinx"
version = "0.6.0"
edition = "2021"
publish = false

[dependencies]
libc = "0.2"
pocketsphinx-sys = "*"
