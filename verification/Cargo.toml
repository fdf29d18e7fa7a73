[package]
name = "acoustic_modem"
version = "0.1.0"
edition = "2021"
publish = false

[dependencies]
realfft = "*"
alsa = "*"
lazy_static = "*"
