[package]
name = "peer_node"
version = "0.1.0"
edition = "2021"
publish = false

[dependencies]
hex = "*"
sha256 = "*"
uuid = { version = "*", features = ["v4"] }
libp2p = { version = "*", features = ["ed25519", "tokio", "tcp", "noise", "yamux", "mdns", "kad", "macros"] }
tokio = { version = "*", features = ["macros", "rt-multi-thread", "io-util", "io-std"] }
clap = { version = "*", features = ["derive"] }
tracing = "*"
tracing-subscriber = { version = "*", features = ["env-filter"] }
