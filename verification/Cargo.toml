[package]
name = "pluton"
version = "0.1.0"
edition = "2021"
publish = false

[dependencies]
serde_json = "*"
serde = { version = "*", features = ["derive"] }
syn = { version = "*", features = ["full", "visit"] }
quote = "*"
proc-macro2 = { version = "*", features = ["span-locations"] }
walkdir = "*"
chrono = "*"
clap = { version = "*", features = ["derive"] }
colored = "*"
env_logger = "*"
anyhow = "*"
thiserror = "*"
