[package]
name = "lloggs"
version = "1.3.0"
edition = "2021"
publish = false

[dependencies]
clap = { version = "4", features = ["derive"] }
enable-ansi-support = "0.2"
time = { version = "0.3", features = ["formatting"] }
tracing-appender = "0.2"
tracing-subscriber = { version = "0.3", features = ["ansi", "env-filter", "fmt", "json"] }
