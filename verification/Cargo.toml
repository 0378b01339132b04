[package]
name = "fire_sensor"
version = "0.1.0"
edition = "2021"
publish = false

[dependencies]
embedded-hal = "1"
esp-idf-svc = "0.51"
log = "0.4"
onewire = "0.4"
ordered-float = "*"
tokio = { version = "1", features = ["rt", "time", "macros"] }
