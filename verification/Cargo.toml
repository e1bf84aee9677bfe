[package]
name = "pollbridge"
version = "0.1.0"
edition = "2021"
publish = false

[dependencies]
alsa = "*"
failure = "0.1"
futures = "0.1"
mio = "0.6"
tokio-core = "0.1"
