[package]
name = "player_core"
version = "0.1.0"
edition = "2021"
publish = false

[dependencies]
rodio = "0.20"
mp3-duration = "0.1"
