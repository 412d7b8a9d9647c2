[package]
name = "midi_bridge"
version = "0.1.0"
edition = "2021"
publish = false

[dependencies]
fluidlite = "0.2"
gdnative = "0.9"
rodio = "0.13"
