[package]
name = "fm_voice"
version = "0.1.0"
edition = "2021"
publish = false

[dependencies]
audio-clock = "*"
crossbeam = "0.7"
cubeb = "*"
monome-rs = "*"
