[package]
name = "frame_sampler"
version = "0.1.0"
edition = "2021"
publish = false

[dependencies]
image = "*"
ffmpeg-next = "*"
