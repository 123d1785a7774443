[package]
name = "lasercube"
version = "0.1.0"
edition = "2021"
publish = false

[dependencies]
bitflags = "2"
futures = "0.3"
thiserror = "1"
tokio = { version = "1", features = ["net", "rt", "sync"] }
tokio-stream = "0.1"
tracing = "0.1"
