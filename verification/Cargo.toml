[package]
name = "speech_sampler"
version = "0.1.0"
edition = "2021"
publish = false

[dependencies]
cpal = "*"
hound = "*"
voice_activity_detector = "*"
whisper-rs = "*"
