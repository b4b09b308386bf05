[package]
name = "productivo"
version = "0.1.0"
edition = "2021"
publish = false

[dependencies]
chrono = "0.4"
crossterm = "0.28"
ratatui = "0.29"
rusqlite = { version = "0.32", features = ["bundled"] }
directories = "5"
serde = { version = "1", features = ["derive"] }
toml = "0.8"
