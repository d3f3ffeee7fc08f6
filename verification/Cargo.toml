[package]
name = "voice_direction_finder"
version = "0.1.0"
edition = "2021"
publish = false

[dependencies]
rustfft = "*"
butterworth = "*"
