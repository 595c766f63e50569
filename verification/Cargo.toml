[package]
name = "bullet"
version = "0.1.0"
edition = "2021"
publish = false

[dependencies]
crossterm = "=0.28.1"
directories = "=6.0.0"
open = "=5.4.4"
ratatui = "=0.29.0"
serde = { version = "=1.0.229", features = ["derive"] }
serde_json = "=1.0.151"
tui-textarea = "=0.7.0"
