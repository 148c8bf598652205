[package]
name = "audio_capture"
version = "0.1.0"
edition = "2021"

[dependencies]
base64 = "*"
hound = "*"
