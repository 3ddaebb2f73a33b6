[package]
name = "noise_trigger"
version = "0.1.0"
edition = "2021"
publish = false

[dependencies]
ringbuf = "0.2"
serde = { version = "1", features = ["derive"] }
parking_lot = "0.12"
cpal = "0.13"
enigo = "0.1"
