[package]
name = "synthphone_e_vocal_dsp"
version = "0.1.0"
edition = "2021"
publish = false

[dependencies]
libm = "0.2"
microfft = "0.6"
