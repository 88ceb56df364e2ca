[package]
name = "inetm"
version = "0.1.0"
edition = "2021"
publish = false

[dependencies]
serde_json = "=1.0.151"
clap = { version = "=4.6.7", features = ["derive"] }
fern = { version = "=0.7.1", features = ["colored"] }
futures-util = "=0.3.34"
indicatif = "=0.18.6"
log = "=0.4.34"
reqwest = { version = "=0.13.5", default-features = false, features = ["stream"] }
tokio = { version = "=1.53.2", features = ["rt-multi-thread", "macros", "fs", "io-util"] }
