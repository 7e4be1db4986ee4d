[package]
name = "tracing-otlp"
version = "0.1.0"
edition = "2021"
publish = false

[dependencies]
prost = "0.13"
tracing = "0.1"
tracing-subscriber = { version = "0.3", default-features = false, features = ["registry"] }
ureq = { version = "2", default-features = false }
url = "2"
uuid = { version = "1", features = ["v4"] }
