[package]
name = "beatsmr"
version = "0.1.0"
edition = "2021"
publish = false

[dependencies]
godot = "=0.4.5"
