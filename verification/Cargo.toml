[package]
name = "fader_test"
version = "0.1.0"
edition = "2021"
publish = false

[dependencies]
anyhow = "=1.0.104"
colored = "=2.2.0"
sysinfo = "=0.30.13"
tokio = { version = "=1.53.2", features = ["sync"] }
