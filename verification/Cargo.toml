[package]
name = "tui_tui"
version = "0.1.0"
edition = "2021"
publish = false

[dependencies]
anyhow = "=1.0.104"
blake3 = "=1.8.7"
ratatui = "=0.30.2"
shakmaty = "=0.29.4"
spake2 = "=0.4.0"
tokio = { version = "=1.54.1", features = ["full"] }
