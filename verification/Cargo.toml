[package]
name = "pcal6416a"
version = "0.1.0"
edition = "2021"
publish = false

[dependencies]
embedded-hal = "=1.0.0"
embedded-hal-async = "=1.0.0"
embassy-sync = "=0.8.0"
device-driver = { version = "=1.0.9", default-features = false }
