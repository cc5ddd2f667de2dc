[package]
name = "dd_agent"
version = "0.1.0"
edition = "2021"
publish = false

[dependencies]
reqwest = { version = "0.12", features = ["json", "stream"] }
serde = { version = "1", features = ["derive"] }
serde_json = "1"
thiserror = "2"
tokio = { version = "1", features = ["macros", "rt-multi-thread", "process", "time", "io-std", "io-util", "net"] }
async-trait = "0.1"
async-stream = "0.3"
futures-util = "0.3"
eventsource-stream = "0.2"
dotenvy = "0.15"
