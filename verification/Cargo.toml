[package]
name = "grok"
version = "0.1.0"
edition = "2021"
publish = false

[dependencies]
rand = "=0.9.5"
regex = "=1.13.1"
serde = { version = "=1.0.229", features = ["derive"] }
serde_json = "=1.0.151"
toml = "=1.1.7"
reqwest = { version = "=0.12.28", default-features = false, features = ["json", "stream"] }
tokio = { version = "=1.53.2", features = ["macros", "rt-multi-thread", "time", "io-util"] }
tokio-util = { version = "=0.7.19", features = ["io"] }
futures-util = "=0.3.34"
