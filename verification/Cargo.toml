[package]
name = "crossterm_screen"
version = "0.1.0"
edition = "2021"
publish = false

[dependencies]
crossterm_utils = "0.4"
crossterm_winapi = "0.3"
