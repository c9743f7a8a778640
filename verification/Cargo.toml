[package]
name = "term_dashboard"
version = "0.1.0"
edition = "2021"
publish = false

[dependencies]
ratatui = "0.29"
crossterm = "0.28"
tui-logger = { version = "0.14", features = ["tracing-support"] }
time = { version = "0.3", features = ["formatting", "macros"] }
tokio = { version = "1", features = ["full"] }
tracing = "0.1"
tracing-subscriber = { version = "0.3", features = ["env-filter"] }
console-subscriber = "*"
dotenv = "0.15"
clap = { version = "4", features = ["derive"] }
lazy_static = "1"
log = "0.4"
anyhow = "1"
color-eyre = "0.6"
