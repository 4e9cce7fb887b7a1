[package]
name = "lofi_radio"
version = "0.1.0"
edition = "2021"
publish = false

[dependencies]
crossterm = "0.28"
nix = { version = "0.29", features = ["signal"] }
ratatui = "0.29"
tokio = { version = "1", features = ["macros", "rt-multi-thread", "process", "net", "io-util", "time", "signal", "sync"] }
