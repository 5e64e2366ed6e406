[package]
name = "geoclue_prometheus_exporter"
version = "0.1.0"
edition = "2021"
publish = false

[dependencies]
anyhow = "*"
chrono = "*"
clap = { version = "*", features = ["derive"] }
futures-util = "*"
metrics = "*"
metrics-exporter-prometheus = "*"
metrics-process = "*"
tokio = { version = "*", features = ["rt-multi-thread", "macros", "signal", "time"] }
zbus = "*"
