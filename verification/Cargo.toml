[package]
name = "net_kit"
version = "0.1.0"
edition = "2021"
publish = false

[dependencies]
vibe-ready = "*"
netwatch = "*"
n0-watcher = "*"
tokio = { version = "1", features = ["rt", "rt-multi-thread", "sync", "time", "macros"] }
windows = { version = "*", features = ["Win32_Foundation", "Win32_Networking_NetworkListManager", "Win32_System_Com"] }
