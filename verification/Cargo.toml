[package]
name = "plane"
version = "0.2.0"
edition = "2021"
publish = false

[dependencies]
serde = { version = "1", features = ["derive"] }
serde_json = "1"
clap = { version = "4", features = ["derive"] }
glob = "0.3"
walkdir = "2"
crossterm = "0.28"
ratatui = "0.29"
ctrlc = "3"
sysinfo = "0.33"
ureq = "3"
base64 = "0.22"
