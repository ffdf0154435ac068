[package]
name = "rinode"
version = "0.1.0"
edition = "2021"
publish = false

[dependencies]
regex = "1"
xxhash-rust = { version = "0.8", features = ["xxh3"] }
clap = { version = "4", features = ["derive"] }
serde = { version = "1", features = ["derive"] }
toml = "0.8"
rusqlite = { version = "0.32", features = ["bundled"] }
chrono = "0.4"
directories = "5"
libc = "0.2"
crossterm = "0.28"
ratatui = "0.29"
comfy-table = "7"
