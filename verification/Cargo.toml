[package]
name = "catherine"
version = "0.6.1"
edition = "2021"
publish = false

[dependencies]
chrono = "=0.4.45"
colored = "=2.2.0"
