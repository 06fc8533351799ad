[package]
name = "installer"
version = "0.1.0"
edition = "2021"
publish = false

[dependencies]
chrono-tz = "*"
color-eyre = "*"
console = "*"
crossterm = "*"
dialoguer = { version = "*", features = ["fuzzy-select", "password"] }
env_logger = "*"
fs-err = { version = "*", features = ["tokio"] }
indicatif = "*"
log = "*"
nix = "*"
tokio = { version = "1", features = ["fs", "io-util", "macros", "process", "rt-multi-thread"] }
