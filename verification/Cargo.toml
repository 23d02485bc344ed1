[package]
name = "logview"
version = "0.1.0"
edition = "2021"
publish = false

[dependencies]
ansi_term = "0.12"
atty = "0.2"
chrono = "0.4"
colored_json = "2"
serde_json = "1"
