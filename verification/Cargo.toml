[package]
name = "voice_editor"
version = "0.1.0"
edition = "2021"
publish = false

[dependencies]
egui = "0.18"
eframe = "0.18"
rfd = "0.10"
cpal = "0.13"
coqui-stt = "1"
log = "0.4"
