[package]
name = "nexus"
version = "0.1.0"
edition = "2021"
publish = false

[dependencies]
serde = { version = "1", features = ["derive"] }
serde_json = "1"
sysinfo = "0.32"
open = "5"
dirs-next = "2"
tracing = "0.1"
