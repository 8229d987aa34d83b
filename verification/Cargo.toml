[package]
name = "htu2xd"
version = "0.1.0"
edition = "2021"
publish = false

[dependencies]
embedded-hal = "0.2"
nb = "1"

[dev-dependencies]
embedded-hal-mock = "0.8"
