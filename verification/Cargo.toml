[package]
name = "agda_mode"
version = "0.1.0"
edition = "2021"
publish = false

[dependencies]
serde_json = { version = "1", features = ["raw_value"] }
tokio = { version = "1", features = ["io-util", "macros", "process", "rt"] }
rustyline = { version = "*", default-features = false }
