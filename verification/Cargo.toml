[package]
name = "squire"
version = "0.1.0"
edition = "2021"
publish = false

[dependencies]
jiff = "0.2"
serde = "1"
url = "2"
