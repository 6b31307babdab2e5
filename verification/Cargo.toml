[package]
name = "world_clock"
version = "0.1.0"
edition = "2021"
publish = false

[dependencies]
chrono = "=0.4.45"
chrono-tz = "=0.10.4"
eframe = { version = "0.19", default-features = false, features = ["glow"] }
