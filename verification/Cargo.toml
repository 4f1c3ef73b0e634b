[package]
name = "midi_staff"
version = "0.1.0"
edition = "2021"
publish = false

[dependencies]
druid = { version = "0.8", features = ["svg"] }
midir = "0.9"
tracing = "0.1"
