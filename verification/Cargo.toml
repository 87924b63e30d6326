[package]
name = "athlete"
version = "0.1.0"
edition = "2021"
publish = false

[dependencies]
cfg-if = "1"
clap = { version = "4", features = ["derive"] }
eyre = "0.6"
hex = "0.4"
reqwest = "0.12"
serde_json = "1"
sha2 = "0.10"
tokio = { version = "1", features = ["rt-multi-thread", "macros", "fs"] }
tracing = "0.1"
tracing-subscriber = { version = "0.3", features = ["env-filter"] }
