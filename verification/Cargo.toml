[package]
name = "ctf_print"
version = "0.1.0"
edition = "2021"
publish = false

[dependencies]
barectf-parser = "*"
serde_yaml = "*"
anyhow = "*"
clap = { version = "*", features = ["derive"] }
exitcode = "*"
nix = { version = "*", features = ["signal"] }
tracing = "*"
tracing-subscriber = "*"
