[package]
name = "calculator"
version = "0.1.0"
edition = "2021"
publish = false

[dependencies]
prost = "0.12"
tokio = { version = "1", features = ["macros", "rt-multi-thread"] }
tonic = "0.11"
tonic-reflection = "0.11"
