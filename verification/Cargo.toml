[package]
name = "fast-sql-term"
version = "0.1.0"
edition = "2021"
publish = false

[dependencies]
anyhow = "1"
comfy-table = "7"
crossterm = "0.27"
ratatui = "0.26"
regex = "1"
rusqlite = { version = "0.31", features = ["bundled"] }
rustyline = "14"
