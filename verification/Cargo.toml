[package]
name = "gossip_persister"
version = "0.1.0"
edition = "2021"
publish = false

[dependencies]
lightning = "*"
tokio = { version = "*", features = ["rt-multi-thread", "macros", "sync"] }
tokio-postgres = "*"
