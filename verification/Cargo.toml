[package]
name = "serde_json_pretty_error"
version = "0.1.0"
edition = "2021"
publish = false

[dependencies]
serde = "1"
serde_json = "1"
owo-colors = "*"
