[package]
name = "eve_sde_to_sqlite"
version = "0.1.0"
edition = "2021"
publish = false

[dependencies]
anyhow = "*"
clap = { version = "*", features = ["derive"] }
crossterm = "*"
directories = "*"
indicatif = "*"
ratatui = "*"
reqwest = { version = "*", features = ["blocking"] }
rusqlite = { version = "*", features = ["bundled"] }
serde = { version = "*", features = ["derive"] }
serde_json = "*"
zip = "*"
