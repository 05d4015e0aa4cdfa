[package]
name = "tx_consensus"
version = "0.1.0"
edition = "2021"
publish = false

[dependencies]
chrono = { version = "0.4", default-features = false, features = ["clock"] }
tokio = { version = "1", default-features = false, features = ["rt", "sync", "time"] }
tower = { version = "0.4", features = ["util"] }
