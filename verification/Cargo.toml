[package]
name = "image_checker"
version = "0.1.0"
edition = "2021"
publish = false

[dependencies]
clap = "2"
colored = "2"
reqwest = "0.11"
serde_json = "1"
tokio = { version = "1", features = ["macros", "rt-multi-thread"] }
