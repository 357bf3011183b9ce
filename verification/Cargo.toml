[package]
name = "ouch_error"
version = "0.1.0"
edition = "2021"
publish = false

[dependencies]
walkdir = "2"
zip = { version = "0.5", default-features = false }
