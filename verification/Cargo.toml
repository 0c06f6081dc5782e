[package]
name = "bubbletea_widgets"
version = "0.1.0"
edition = "2021"
publish = false

[dependencies]
bubbletea-rs = "*"
crossterm = "*"
fuzzy-matcher = "*"
lipgloss = "*"
lipgloss-extras = { version = "*", features = ["full"] }
once_cell = "*"
