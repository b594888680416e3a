[package]
name = "euphony"
version = "0.1.0"
edition = "2021"
publish = false

[dependencies]
ansi-to-tui = "*"
camino = "*"
chrono = "*"
clap = { version = "*", features = ["derive"] }
console = "*"
crossbeam = "*"
crossterm = "*"
dunce = "*"
indicatif = "*"
lazy_static = "*"
miette = "*"
ratatui = "*"
rayon = "*"
serde = { version = "*", features = ["derive"] }
strip-ansi-escapes = "*"
thiserror = "*"
toml = "*"
tui = "*"
