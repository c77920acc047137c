[package]
name = "maestro_tui"
version = "0.1.0"
edition = "2021"
publish = false

[dependencies]
alacritty_terminal = "0.25"
color-eyre = "0.6"
crossterm = "0.28"
notify = "8"
notify-debouncer-mini = "0.6"
portable-pty = "0.9"
ratatui = "0.29"

[dev-dependencies]
tempfile = "3"
