[package]
name = "vp2pn"
version = "0.1.0"
edition = "2021"
publish = false

[dependencies]
anyhow = "=1.0.104"
async-trait = "=0.1.92"
clap = { version = "=4.6.7", default-features = false, features = ["std", "derive", "help", "usage", "error-context"] }
futures = "=0.3.34"
ipnet = "=2.12.2"
libp2p = { version = "=0.57.1", features = ["tokio", "quic", "relay", "noise", "yamux", "ping", "request-response"] }
libp2p-request-response = "=0.30.0"
libp2p-swarm-derive = "=0.36.0"
tokio = { version = "=1.54.1", features = ["rt-multi-thread", "macros", "sync", "signal", "time"] }
tokio-util = "=0.7.20"
tracing = "=0.1.44"
tracing-subscriber = { version = "=0.3.23", default-features = false, features = ["std", "fmt", "env-filter"] }
tun-rs = { version = "=2.8.16", features = ["async"] }
