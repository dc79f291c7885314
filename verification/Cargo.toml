[package]
name = "candle_engine"
version = "0.1.0"
edition = "2021"
publish = false

[dependencies]
anyhow = "1"
candle-core = "*"
candle-nn = "*"
candle-transformers = "*"
serde = { version = "1", features = ["derive"] }
serde_json = "1"
tch = "*"
tokenizers = "*"
