[package]
name = "keystream"
version = "0.1.0"
edition = "2021"
publish = false

[dependencies]
core-foundation = "*"
cpal = "*"
crossbeam-channel = "*"
ctrlc = "*"
device_query = "*"
dialoguer = { version = "*", default-features = false }
libc = "*"
