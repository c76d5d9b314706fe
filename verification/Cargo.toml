[package]
name = "ingest"
version = "0.1.0"
edition = "2021"
publish = false

[dependencies]
anyhow = "*"
fs2 = "*"
thiserror = "*"
tokio = { version = "*", features = ["fs", "macros", "rt", "rt-multi-thread"] }
walkdir = "*"
