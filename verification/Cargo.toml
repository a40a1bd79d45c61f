[package]
name = "bambu_printers"
version = "0.1.0"
edition = "2021"
publish = false

[dependencies]
anyhow = "1"
async-trait = "0.1"
dashmap = "6"
tokio = { version = "1", features = ["net", "process", "rt", "sync"] }
tracing = "0.1"
uuid = { version = "1", features = ["v4"] }
