[package]
name = "llm_gateway"
version = "0.1.0"
edition = "2021"
publish = false

[dependencies]
uuid = { version = "=1.27.0", features = ["v4"] }
actix-web = { version = "=4.15.0", default-features = false }
async-openai = { version = "=0.42.1", features = ["embedding"] }
either = "=1.19.0"
futures = "=0.3.34"
tokio = { version = "=1.53.2", features = ["macros", "rt", "rt-multi-thread", "sync", "time"] }
tracing = "=0.1.44"
tracing-futures = "=0.2.5"
