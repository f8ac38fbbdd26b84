[package]
name = "hn_core"
version = "0.1.0"
edition = "2021"
publish = false

[dependencies]
crossterm = "*"
futures = "*"
ratatui = "*"
reqwest = { version = "*", default-features = false, features = ["json"] }
serde = { version = "*", features = ["derive"] }
tokio = { version = "*", features = ["rt-multi-thread", "macros"] }
