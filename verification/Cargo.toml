[package]
name = "picosakura"
version = "0.1.0"
edition = "2021"
publish = false

[dependencies]
sakuramml = "*"
rustysynth = "*"
wav_io = "*"
tinyaudio = "*"
