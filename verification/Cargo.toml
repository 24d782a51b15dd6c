[package]
name = "firmware_core"
version = "0.1.0"
edition = "2021"
publish = false

[dependencies]
embedded-hal = "1"
embedded-svc = "*"
enumset = "1"
esp-idf-hal = "*"
esp-idf-svc = "*"
esp-idf-sys = "*"
log = "0.4"
spin = "0.9"
strum = "*"
