[package]
name = "instance_chart"
version = "0.1.0"
edition = "2021"
publish = false

[dependencies]
bincode = "1.3"
rand = "0.8"
serde = { version = "1", features = ["derive"] }
socket2 = { version = "0.4", features = ["all"] }
thiserror = "1"
tokio = { version = "1", features = ["net", "sync", "rt", "time", "macros"] }
tracing = "0.1"
