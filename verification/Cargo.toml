[package]
name = "conmon_config"
version = "0.1.0"
edition = "2021"
publish = false

[dependencies]
anyhow = "*"
clap = { version = "*", features = ["derive"] }
nix = { version = "*", features = ["fs", "term"] }
stderrlog = "*"
