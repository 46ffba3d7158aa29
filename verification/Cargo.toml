[package]
name = "cuervo"
version = "0.1.0"
edition = "2021"
publish = false

[dependencies]
tui-input = "*"
url = "*"
ratatui = "*"
fluent = "*"
unic-langid = "*"
sys-locale = "*"
