[package]
name = "lpc55_pfr"
version = "0.1.0"
edition = "2021"
publish = false

[dependencies]
sha2 = "0.9"
serde = { version = "1", features = ["derive"] }
serde-big-array = "0.3"
bitflags = "1"
