[package]
name = "speaker_capture"
version = "0.1.0"
edition = "2021"
publish = false

[dependencies]
futures-util = "0.3"
libpulse-binding = "2"
libpulse-simple-binding = "2"
