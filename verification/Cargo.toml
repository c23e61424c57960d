[package]
name = "pasta"
version = "0.1.0"
edition = "2021"
publish = false

[dependencies]
arboard = { version = "3", default-features = false }
clap = "4"
color-eyre = { version = "0.6", default-features = false }
crossterm = "0.27"
ratatui = "0.26"
sqlx = { version = "0.7", default-features = false, features = ["sqlite", "runtime-tokio"] }
tokio = { version = "1", features = ["rt", "macros", "time"] }
