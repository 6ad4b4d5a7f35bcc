[package]
name = "upsctl"
version = "0.1.0"
edition = "2021"
publish = false

[dependencies]
anyhow = "=1.0.104"
clap = { version = "=3.2.25", features = ["derive"] }
rups = { version = "=0.6.1", features = ["write"] }
