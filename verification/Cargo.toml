[package]
name = "water_reminder"
version = "0.1.0"
edition = "2021"
publish = false

[dependencies]
chrono = { version = "0.4", default-features = false, features = ["clock"] }
log = { version = "0.4", default-features = false }
