[package]
name = "commity"
version = "0.1.0"
edition = "2021"
publish = false

[dependencies]
crossterm = "0.28"
dirs = "*"
git2 = "*"
minijinja = "2"
ratatui = "0.29"
serde = { version = "1", features = ["derive"] }
serde_yml = "*"
