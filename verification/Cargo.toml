[package]
name = "swapbytes"
version = "0.1.0"
edition = "2021"
publish = false

[dependencies]
clap = { version = "4", features = ["derive"] }
crossterm = "0.26"
futures = "0.3"
libp2p = { version = "0.53", features = ["cbor", "gossipsub", "identify", "macros", "mdns", "noise", "request-response", "tcp", "tokio", "yamux"] }
ratatui = "0.21"
serde = { version = "1", features = ["derive"] }
serde_json = "1"
tokio = { version = "1", features = ["fs", "io-util", "macros", "rt-multi-thread"] }
