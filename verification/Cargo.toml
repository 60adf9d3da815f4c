[package]
name = "panther_tracker"
version = "0.1.0"
edition = "2021"
publish = false

[dependencies]
winit = "0.29"
ab_glyph = "0.2"
log = "0.4"
