[package]
name = "chatbot_core"
version = "0.1.0"
edition = "2021"
publish = false

[dependencies]
chrono = "*"
vader_sentiment = "*"
chatgpt_rs = "*"
serenity = { version = "0.11", default-features = false, features = ["client", "gateway", "model", "rustls_backend"] }
tokio = { version = "*", features = ["macros", "rt-multi-thread", "sync", "time"] }
