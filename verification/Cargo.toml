[package]
name = "ultimate3"
version = "0.1.0"
edition = "2021"
publish = false

[dependencies]
accesskit = "0.14"
futures = "0.3"
smallvec = "1"
tokio = { version = "1", features = ["net", "io-util", "sync"] }
tracing = "0.1"
