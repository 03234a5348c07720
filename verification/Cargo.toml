[package]
name = "modem"
version = "0.1.0"
edition = "2021"
publish = false

[dependencies]
embedded-svc = "0.28"
enumset = "1.1"
esp-idf-hal = "0.45"
