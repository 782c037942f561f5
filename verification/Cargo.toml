[package]
name = "rustgram"
version = "0.1.0"
edition = "2021"
publish = false

[dependencies]
anyhow = "=1.0.104"
crossterm = "=0.29.0"
grammers-client = "=0.7.0"
grammers-session = "=0.7.0"
ratatui = "=0.30.2"
tokio = { version = "=1.54.1", features = ["rt-multi-thread", "macros"] }
tui-textarea = "=0.4.0"
unicode-segmentation = "=1.13.3"
