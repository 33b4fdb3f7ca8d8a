[package]
name = "penteract"
version = "0.1.0"
edition = "2021"
publish = false

[dependencies]
crossterm = "0.28"
nalgebra = "0.33"
ratatui = "0.29"
