[package]
name = "shard"
version = "0.1.0"
edition = "2021"
publish = false

[dependencies]
regex = "1"
serde = { version = "1", features = ["derive"] }
serde_json = "1"
toml = "*"
anyhow = "1"
dirs = "*"
directories = "*"
tokio = { version = "1", features = ["full"] }
crossterm = "*"
ratatui = "*"
ratatui-image = { version = "*", default-features = false }
image = { version = "*", default-features = false, features = ["png", "jpeg", "webp"] }
reqwest = { version = "*", default-features = false }
