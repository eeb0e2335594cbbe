[package]
name = "music_tui"
version = "0.1.0"
edition = "2021"
publish = false

[dependencies]
directories = "*"
ratatui = "*"
toml_edit = "*"
crossterm = "*"
serde = { version = "1", features = ["derive"] }
toml = "*"
anyhow = "1"
lofty = "*"
walkdir = "2"
rusqlite = { version = "*", features = ["bundled"] }
image = { version = "*", default-features = false, features = ["png", "jpeg"] }
ratatui-image = { version = "*", default-features = false }
