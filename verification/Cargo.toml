[package]
name = "rendezvous_server"
version = "0.1.0"
edition = "2021"
publish = false

[dependencies]
anyhow = "1"
atty = "0.2"
futures = "0.3"
libp2p = { version = "0.40", default-features = false, features = ["dns-tokio", "mplex", "noise", "ping", "rendezvous", "tcp-tokio", "websocket", "yamux"] }
structopt = "0.3"
tokio = { version = "1", features = ["fs", "io-util", "macros", "rt-multi-thread"] }
tracing = "0.1"
tracing-subscriber = "0.2"
