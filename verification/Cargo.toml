[package]
name = "metrics_exporter"
version = "0.1.0"
edition = "2021"
publish = false

[dependencies]
tokio = { version = "1", features = ["rt-multi-thread", "time", "macros"] }
tonic = "0.12"
prometheus = "0.13"
once_cell = "1"
