[package]
name = "soroban-scan-core"
version = "0.1.0"
edition = "2021"
publish = false

[dependencies]
anyhow = "=1.0.104"
clap = { version = "=4.6.7", features = ["derive"] }
globset = "=0.4.21"
hex = "=0.4.3"
proc-macro2 = { version = "=1.0.107", features = ["span-locations"] }
quote = "=1.0.47"
serde = { version = "=1.0.229", features = ["derive"] }
serde_json = { version = "=1.0.154", features = ["preserve_order"] }
sha2 = "=0.10.9"
syn = { version = "=2.0.119", features = ["full", "visit", "extra-traits"] }
toml = "=0.8.23"
walkdir = "=2.5.0"
