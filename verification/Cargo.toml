[package]
name = "aimcal_ical"
version = "0.1.0"
edition = "2021"
publish = false

[dependencies]
jiff = { version = "0.2", default-features = false, features = ["std"] }
