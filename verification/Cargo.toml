[package]
name = "script_picker"
version = "0.1.0"
edition = "2021"
publish = false

[dependencies]
atty = "0.2"
crossterm = "0.28"
ratatui = "0.29"
tokio = { version = "1", features = ["rt-multi-thread", "macros", "process", "io-util", "io-std", "time"] }
