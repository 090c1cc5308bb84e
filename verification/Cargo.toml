[package]
name = "domain_checker"
version = "0.1.0"
edition = "2021"
publish = false

[dependencies]
clap = "*"
reqwest = { version = "*", default-features = false }
tokio = { version = "*", features = ["rt-multi-thread", "macros", "sync", "time"] }
