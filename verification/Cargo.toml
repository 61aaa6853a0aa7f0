[package]
name = "dashboard"
version = "0.1.0"
edition = "2021"
publish = false

[dependencies]
anyhow = "1"
crossterm = "0.22"
scopeguard = "1"
tokio = { version = "1", features = ["sync", "macros", "rt"] }
tui = { version = "0.17", default-features = false, features = ["crossterm"] }
