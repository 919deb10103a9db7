[package]
name = "lolshorts"
version = "0.1.0"
edition = "2021"
publish = false

[dependencies]
chrono = { version = "=0.4.45", default-features = false, features = ["std", "alloc"] }
serde = { version = "=1.0.229", features = ["derive"] }
serde_json = "=1.0.154"
anyhow = "=1.0.104"
tracing = "=0.1.44"
tokio = { version = "=1.54.1", features = ["rt-multi-thread", "sync", "time", "macros", "process"] }
reqwest = { version = "=0.12.28", default-features = false, features = ["json", "rustls-tls"] }
sysinfo = "0.30"
tokio-util = "0.7"
nix = { version = "0.29", features = ["signal"] }
