[package]
name = "quiz_trainer"
version = "0.1.0"
edition = "2021"
publish = false

[dependencies]
rand = "0.8"
serde = { version = "1", features = ["derive"] }
serde-xml-rs = "0.6"
tracing-subscriber = "0.3"
