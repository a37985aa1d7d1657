[package]
name = "audio_player"
version = "0.1.0"
edition = "2021"
publish = false

[dependencies]
symphonia = { version = "=0.5.5", features = ["all"] }
cpal = "=0.15.3"
rubato = "=0.15.0"
clap = { version = "=4.6.7", features = ["derive"] }
indicatif = "=0.18.6"
color-eyre = "=0.6.5"
thiserror = "=1.0.69"
