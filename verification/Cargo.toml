[package]
name = "numbat_ui"
version = "0.1.0"
edition = "2021"
publish = false

[dependencies]
anyhow = "1"
colored = "*"
dirs = "*"
numbat = "*"
portable-pty = "*"
rustyline = { version = "*", features = ["derive"] }
terminal_size = "*"
