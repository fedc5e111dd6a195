[package]
name = "leepanel"
version = "0.1.0"
edition = "2021"
publish = false

[dependencies]
async-trait = "0.1"
dirs = "5"
log = "0.4"
open = "5"
rusqlite = { version = "0.32", features = ["bundled"] }
russh = "0.45"
russh-keys = "0.45"
russh-sftp = "2"
serde = { version = "1", features = ["derive"] }
serde_json = "1"
tokio = { version = "1", features = ["fs", "io-util", "macros", "net", "rt-multi-thread", "sync", "time"] }
uuid = { version = "1", features = ["v4"] }
