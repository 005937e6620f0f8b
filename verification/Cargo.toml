[package]
name = "audio_engine"
version = "0.1.0"
edition = "2021"
publish = false

[dependencies]
cpal = "0.15"
glow = "0.11"
imgui = "0.9"
imgui-glow-renderer = "0.9"
ringbuf = "0.3"
rustfft = "6"
