[package]
name = "dns_bench"
version = "0.1.0"
edition = "2021"
publish = false

[dependencies]
anyhow = "1"
bytes = "1"
clap = { version = "4", features = ["derive"] }
indicatif = "0.17"
rand = "0.9"
tokio = { version = "1", features = ["macros", "net", "rt-multi-thread", "sync", "time"] }
