[package]
name = "firmware_core"
version = "0.1.0"
edition = "2021"
publish = false

[dependencies]
enumset = "=1.1.15"
micromath = { version = "=2.1.0", features = ["vector"] }
embedded-hal = "=1.0.0"
