[package]
name = "wavevm_console"
version = "0.1.0"
edition = "2021"
publish = false

[dependencies]
clap = { version = "4", features = ["derive"] }
log = "0.4"
ratatui = "0.29"
slog = "2"
slog-scope = "4"
slog-stdlog = "4"
slog-term = "2"
