[package]
name = "proc_supervisor"
version = "0.1.0"
edition = "2021"
publish = false

[dependencies]
anyhow = "=1.0.104"
circular-buffer = "=0.1.9"
futures = "=0.3.34"
once_cell = "=1.21.4"
pin-project = "=1.1.13"
serde_json = "=1.0.154"
tokio = { version = "=1.54.1", features = ["io-util", "macros", "process", "rt", "rt-multi-thread", "sync", "time"] }
