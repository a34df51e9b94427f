[package]
name = "wav_playback"
version = "0.1.0"
edition = "2021"
publish = false

[dependencies]
anyhow = "*"
embedded-sdmmc = "*"
esp-idf-hal = "*"
esp-idf-svc = "*"
log = "*"
