[package]
name = "relay_node"
version = "0.1.0"
edition = "2021"
publish = false

[dependencies]
anyhow = "1"
libp2p = { version = "0.55", features = ["identify", "kad", "macros", "noise", "ping", "relay", "tcp", "tokio", "yamux"] }
tokio = { version = "1", features = ["macros", "rt-multi-thread"] }
tracing = "0.1"
tracing-appender = "0.2"
tracing-subscriber = { version = "0.3", features = ["env-filter"] }
