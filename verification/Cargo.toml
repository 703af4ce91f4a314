[package]
name = "spin_cli"
version = "0.1.0"
edition = "2021"
publish = false

[dependencies]
anyhow = "1"
clap = { version = "3", features = ["derive"] }
is-terminal = "0.4"
tokio = { version = "1", features = ["macros", "rt-multi-thread", "process"] }
tracing-subscriber = { version = "0.3", features = ["env-filter", "fmt", "ansi"] }
