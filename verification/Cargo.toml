[package]
name = "audio_pipeline"
version = "0.1.0"
edition = "2021"
publish = false

[dependencies]
crossbeam = "0.8"
puremp3 = "0.1"
cpal = "0.13"
egui = "0.15"
egui_glium = { version = "0.15", default-features = false }
glium = "0.30"
ndarray = "0.15"
color-eyre = "0.5"
puffin = "*"
puffin_http = "*"
