[package]
name = "form_value"
version = "0.1.0"
edition = "2021"
publish = false

[dependencies]
percent-encoding = "2"
rmp-serde = "1"
serde = "1"
