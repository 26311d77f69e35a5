[package]
name = "dnp3"
version = "0.1.0"
edition = "2021"
publish = false

[dependencies]
oo-bindgen = "*"
tokio = { version = "1", features = ["sync", "time", "macros", "rt"] }
tracing = "0.1"
