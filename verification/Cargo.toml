[package]
name = "bookmark_picker"
version = "0.1.0"
edition = "2021"
publish = false

[dependencies]
crossterm = "0.27"
powershell_script = "1"
ratatui = "0.26"
