[package]
name = "publish_watch"
version = "0.1.0"
edition = "2021"
publish = false

[dependencies]
http = "=1.5.0"
reqwest = { version = "=0.13.5", default-features = false, features = ["gzip", "http2"] }
h2 = "=0.4.20"
crates-index = { version = "=3.14.2", default-features = false, features = ["git", "sparse"] }
cargo_metadata = "=0.23.1"
secrecy = "=0.10.3"
tokio = { version = "=1.53.2", features = ["time", "rt", "macros"] }
anyhow = "=1.0.104"
tracing = "=0.1.44"
