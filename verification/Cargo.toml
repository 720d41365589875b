[package]
name = "input_state"
version = "0.1.0"
edition = "2021"
publish = false

[dependencies]
accesskit = "0.21"
profiling = "1"
serde = { version = "1", features = ["derive"] }
