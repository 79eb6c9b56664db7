[package]
name = "taiko_hid"
version = "0.1.0"
edition = "2021"
publish = false

[dependencies]
fixed-fft = "=0.1.0"
num-complex = { version = "=0.3.1", default-features = false }
