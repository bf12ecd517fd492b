[package]
name = "rust_starter_template"
version = "0.1.0"
edition = "2021"
publish = false

[dependencies]
clap = { version = "4.5", features = ["derive"] }
clap_complete = "4.5"
color-eyre = "=0.6.2"
config = { version = "0.14", default-features = false, features = ["toml"] }
human-panic = "1.2"
lazy_static = "1.5"
parking_lot = "0.12"
serde = { version = "1.0", features = ["derive"] }
thiserror = "1.0"
tokio = { version = "1", features = ["rt-multi-thread", "macros", "signal", "fs", "io-util"] }
tracing = "=0.1.40"
tracing-appender = "=0.2.3"
tracing-error = "=0.2.0"
tracing-journald = "=0.3.0"
tracing-subscriber = "=0.3.18"
