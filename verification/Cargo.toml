[package]
name = "wiki_stream"
version = "0.1.0"
edition = "2021"
publish = false

[dependencies]
serde = { version = "1", features = ["derive"] }
serde_json = "1"
crossbeam = "0.8"
tokio = { version = "1", features = ["rt-multi-thread", "time", "macros"] }
ureq = "2"
