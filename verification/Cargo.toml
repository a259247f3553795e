[package]
name = "hyperqueue"
version = "0.1.0"
edition = "2021"
publish = false

[dependencies]
anyhow = "1"
bincode = "1"
byteorder = "1"
bytes = "1"
chrono = "0.4"
futures = "0.3"
log = "0.4"
orion = "0.17"
serde = { version = "1", features = ["derive"] }
serde_json = "1"
termion = "1.5"
tokio = { version = "1", features = ["rt", "net", "sync", "fs", "io-util", "macros", "time"] }
tokio-util = { version = "0.7", features = ["codec"] }
tui = "0.17"
