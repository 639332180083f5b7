[package]
name = "p2p_blockchain"
version = "0.1.0"
edition = "2021"
publish = false

[dependencies]
sha2 = "0.10"
serde = { version = "1", features = ["derive"] }
serde_json = "1"
libp2p = { version = "0.53", features = ["gossipsub", "mdns", "noise", "tcp", "yamux", "tokio", "macros"] }
tokio = { version = "1", features = ["rt-multi-thread", "macros", "io-std", "io-util", "time"] }
futures = "0.3"
tracing-subscriber = { version = "0.3", features = ["env-filter"] }
