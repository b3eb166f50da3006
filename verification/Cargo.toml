[package]
name = "pid1"
version = "0.1.0"
edition = "2021"
publish = false

[dependencies]
nix = { version = "=0.31.3", features = ["signal", "process"] }
signal-hook = "=0.4.5"
clap_lex = "=1.1.1"
