[package]
name = "voynich_term"
version = "0.1.0"
edition = "2021"
publish = false

[dependencies]
anyhow = "=1.0.104"
better-panic = "=0.3.0"
chrono = "=0.4.45"
clap = { version = "=4.6.7", features = ["derive", "cargo"] }
crossterm = { version = "=0.27.0", features = ["event-stream"] }
futures = "=0.3.34"
futures-lite = "=1.13.0"
lazy_static = "=1.5.1"
rand = "=0.8.8"
ratatui = "=0.25.0"
tokio = { version = "=1.54.1", features = ["full"] }
tokio-util = "=0.7.10"
tor-client-lib = "=0.2.2"
unicode-width = "=0.1.14"
voynich = "=0.1.1"
