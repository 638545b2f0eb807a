[package]
name = "llm_engine_endpoint"
version = "0.1.0"
edition = "2021"
publish = false

[dependencies]
anyhow = "=1.0.104"
candle-core = "=0.9.2"
candle-nn = "=0.9.2"
candle-transformers = "=0.9.2"
hf-hub = "=0.3.2"
serde = { version = "=1.0.229", features = ["derive"] }
serde_json = "=1.0.151"
tokenizers = { version = "=0.23.2", default-features = false, features = ["onig"] }
tokio = { version = "*", features = ["rt-multi-thread", "macros"] }
tracing = "*"
tracing-subscriber = { version = "*", default-features = false, features = ["fmt"] }
uuid = { version = "*", features = ["v4"] }
