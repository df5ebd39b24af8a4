[package]
name = "piper_synth"
version = "0.1.0"
edition = "2021"
publish = false

[dependencies]
flume = { version = "*", default-features = false }
once_cell = "*"
rayon = "*"
sonic-rs-sys = "*"
