[package]
name = "gb_live32"
version = "0.1.0"
edition = "2021"
publish = false

[dependencies]
bufstream = "0.1"
clap = "2"
cobs = "*"
failure = "0.1"
itertools = "0.10"
log = "0.4"
rand = { version = "0.8", features = ["small_rng"] }
serialport = { version = "3", default-features = false }
simplelog = "0.5"
