[package]
name = "rotilities"
version = "0.1.0"
edition = "2021"
publish = false

[dependencies]
rodio = { version = "=0.22.2", default-features = false, features = ["wav", "flac", "vorbis", "mp3"] }
