[package]
name = "net_topo"
version = "0.1.0"
edition = "2021"
publish = false

[dependencies]
serde_json = "1"
tokio = { version = "1", features = ["net", "rt-multi-thread", "io-util", "macros"] }
